//! Storage-rent trajectory model of the tip jar's per-`(creator, token)`
//! ledger entries: each tip creates or renews the two entries of its pair,
//! time decays their TTL, and an entry whose TTL runs out is archived. The
//! simulation tips by an activity model, takes a snapshot every 30 days
//! and sums the cost in stroops.
use vstd::prelude::*;

verus! {

/// TTL extension applied on every write, in ledgers (about 7 days).
pub const LEDGER_BUMP: u32 = 120_960;

/// TTL below which an entry is renewed.
pub const LEDGER_THRESHOLD: u32 = 100_000;

/// Seconds per ledger.
pub const LEDGER_CLOSE_TIME_SECS: u32 = 5;

/// Ledgers per day.
pub const LEDGERS_PER_DAY: u32 = 17_280;

/// Ledgers per year.
pub const LEDGERS_PER_YEAR: u32 = 6_307_200;

/// One-time cost of creating a ledger entry, in stroops.
pub const ENTRY_CREATION_COST_STROOPS: i128 = 10_000;

/// Cost of extending a TTL by `LEDGER_BUMP` ledgers at a tenth of a stroop
/// per ledger, in stroops.
pub const TTL_EXTENSION_COST_STROOPS: i128 = 12_096;

/// Stroops per XLM.
pub const STROOPS_PER_XLM: i128 = 10_000_000;

/// Ledgers between two snapshots (30 days).
pub const SNAPSHOT_INTERVAL: u32 = 518_400;

/// Lifecycle of one `(creator, token)` pair of entries.
#[derive(Clone, Copy, Debug, PartialEq, Eq, Structural)]
pub enum EntryState {
    Nonexistent,
    Active { ttl_remaining: u32 },
    Archived,
}

/// Which pairs receive tips, and when.
#[derive(Clone, Copy, Debug, PartialEq, Eq, Structural)]
pub enum ActivityModel {
    /// Every pair is tipped once, at ledger 0.
    Dormant,
    /// Every pair is tipped every 30 days.
    Active,
    /// Pairs below the cutoff are tipped every 30 days, the others once.
    Mixed(MixedModel),
}

/// The mixed activity model: pairs below `active_cutoff` are active, the
/// others dormant.
#[derive(Clone, Copy, Debug, PartialEq, Eq, Structural)]
pub struct MixedModel {
    pub active_cutoff: usize,
}

/// The activity model a scenario names.
#[derive(Clone, Copy, Debug, PartialEq, Eq, Structural)]
pub enum ActivityKind {
    Active,
    Dormant,
    Mixed,
}

/// A snapshot of the entries at one ledger.
#[derive(Clone, Copy, Debug, PartialEq, Eq)]
pub struct Snapshot {
    pub ledger: u32,
    pub active_entries: u32,
    pub archived_entries: u32,
    pub cumulative_cost_stroops: i128,
    pub period_cost_stroops: i128,
}

/// The integer summary of a simulation.
#[derive(Clone, Copy, Debug, PartialEq, Eq)]
pub struct SimSummary {
    pub total_pairs: u32,
    pub peak_active_entries: u32,
    pub final_active_entries: u32,
    pub final_archived_entries: u32,
    pub total_cost_stroops: i128,
}

/// State of a simulation.
pub struct SimulationState {
    /// One state per `(creator, token)` pair.
    pub entries: Vec<EntryState>,
    pub current_ledger: u32,
    pub cumulative_cost: i128,
}

/// What a tip to a pair in state `e` costs: renewing live entries, or
/// creating both entries anew.
pub open spec fn tip_cost(e: EntryState) -> int {
    match e {
        EntryState::Active { .. } => 2 * TTL_EXTENSION_COST_STROOPS,
        _ => 2 * ENTRY_CREATION_COST_STROOPS + 2 * TTL_EXTENSION_COST_STROOPS,
    }
}

/// The state of a pair after a tip.
pub open spec fn tipped(e: EntryState) -> EntryState {
    match e {
        EntryState::Active { ttl_remaining } => EntryState::Active {
            ttl_remaining: if ttl_remaining + LEDGER_BUMP > u32::MAX {
                u32::MAX
            } else {
                (ttl_remaining + LEDGER_BUMP) as u32
            },
        },
        _ => EntryState::Active { ttl_remaining: LEDGER_BUMP },
    }
}

/// The state of a pair after `n` ledgers without activity.
pub open spec fn decayed(e: EntryState, n: u32) -> EntryState {
    match e {
        EntryState::Active { ttl_remaining } => if ttl_remaining <= n {
            EntryState::Archived
        } else {
            EntryState::Active { ttl_remaining: (ttl_remaining - n) as u32 }
        },
        _ => e,
    }
}

/// Number of active entries among the first `n`.
pub open spec fn count_active(s: Seq<EntryState>, n: nat) -> nat
    decreases n,
{
    if n == 0 || n > s.len() {
        0
    } else {
        count_active(s, (n - 1) as nat) + if s[n - 1] is Active { 1nat } else { 0nat }
    }
}

/// Number of archived entries among the first `n`.
pub open spec fn count_archived(s: Seq<EntryState>, n: nat) -> nat
    decreases n,
{
    if n == 0 || n > s.len() {
        0
    } else {
        count_archived(s, (n - 1) as nat) + if s[n - 1] is Archived { 1nat } else { 0nat }
    }
}

/// True if pair `idx` is tipped at `ledger` under `model`.
pub open spec fn tips_at(model: ActivityModel, idx: int, ledger: u32) -> bool {
    match model {
        ActivityModel::Dormant => ledger == 0,
        ActivityModel::Active => ledger % SNAPSHOT_INTERVAL == 0,
        ActivityModel::Mixed(m) => if idx < m.active_cutoff {
            ledger % SNAPSHOT_INTERVAL == 0
        } else {
            ledger == 0
        },
    }
}

/// The entries and cost after the pairs below `n` that `model` tips at
/// `ledger` were tipped, in index order.
pub open spec fn tip_round(
    s: Seq<EntryState>,
    cost: int,
    model: ActivityModel,
    ledger: u32,
    n: nat,
) -> (Seq<EntryState>, int)
    decreases n,
{
    if n == 0 || n > s.len() {
        (s, cost)
    } else {
        let (s1, c1) = tip_round(s, cost, model, ledger, (n - 1) as nat);
        if tips_at(model, n - 1, ledger) {
            (s1.update(n - 1, tipped(s1[n - 1])), c1 + tip_cost(s1[n - 1]))
        } else {
            (s1, c1)
        }
    }
}

/// The snapshots from `ledger` on, every `SNAPSHOT_INTERVAL` ledgers up to
/// `total`: at each, the pairs that `model` tips are tipped, a snapshot is
/// taken (its period cost is the cost since `prev`, the previous cumulative
/// cost, if any), and the entries decay until the next one.
pub open spec fn snapshots_from(
    s: Seq<EntryState>,
    cost: int,
    model: ActivityModel,
    ledger: int,
    total: int,
    prev: Option<int>,
) -> Seq<Snapshot>
    decreases total - ledger + SNAPSHOT_INTERVAL,
{
    if ledger < 0 || ledger > total || ledger > u32::MAX {
        Seq::empty()
    } else {
        let (s1, c1) = tip_round(s, cost, model, ledger as u32, s.len());
        let snap = Snapshot {
            ledger: ledger as u32,
            active_entries: count_active(s1, s1.len()) as u32,
            archived_entries: count_archived(s1, s1.len()) as u32,
            cumulative_cost_stroops: c1 as i128,
            period_cost_stroops: match prev {
                Some(p) => (c1 - p) as i128,
                None => c1 as i128,
            },
        };
        let step = if SNAPSHOT_INTERVAL < total - ledger { SNAPSHOT_INTERVAL as int } else { total - ledger };
        let s2 = if ledger < total { Seq::new(s1.len(), |i: int| decayed(s1[i], step as u32)) } else { s1 };
        seq![snap] + snapshots_from(s2, c1, model, ledger + SNAPSHOT_INTERVAL, total, Some(c1))
    }
}

/// The model of a scenario with `total_pairs` pairs.
pub open spec fn model_of(kind: ActivityKind, total_pairs: u32) -> ActivityModel {
    match kind {
        ActivityKind::Active => ActivityModel::Active,
        ActivityKind::Dormant => ActivityModel::Dormant,
        ActivityKind::Mixed => ActivityModel::Mixed(MixedModel { active_cutoff: (total_pairs / 2) as usize }),
    }
}

/// The largest active count among the snapshots, or 0.
pub open spec fn peak_active(snaps: Seq<Snapshot>) -> u32
    decreases snaps.len(),
{
    if snaps.len() == 0 {
        0
    } else {
        let rest = peak_active(snaps.drop_last());
        if snaps.last().active_entries > rest { snaps.last().active_entries } else { rest }
    }
}

/// Cost of a tip that creates both entries of a pair: creation and one TTL
/// extension for each (44 192 stroops).
pub open spec fn fresh_pair_cost() -> int {
    2 * ENTRY_CREATION_COST_STROOPS + 2 * TTL_EXTENSION_COST_STROOPS
}

/// `n` pairs: the first `j` freshly tipped, the others in state `rest`.
pub open spec fn split_state(n: nat, j: int, rest: EntryState) -> Seq<EntryState> {
    Seq::new(n, |i: int| if i < j { EntryState::Active { ttl_remaining: LEDGER_BUMP } } else { rest })
}

/// `model` tips each of the `n` pairs at ledger 0 and, at every later ledger
/// that is a multiple of the snapshot interval, exactly the pairs below `m`.
pub open spec fn tips_below(model: ActivityModel, n: nat, m: int) -> bool {
    forall|i: int, l: u32|
        0 <= i < n ==> #[trigger] tips_at(model, i, l) == (l == 0 || (i < m && l % SNAPSHOT_INTERVAL == 0))
}

/// The snapshot taken at `ledger` once every pair has lapsed since the last
/// one and the `m` pairs of the model were tipped again.
pub open spec fn later_snapshot(n: nat, m: int, ledger: int, cumulative: int) -> Snapshot {
    Snapshot {
        ledger: ledger as u32,
        active_entries: m as u32,
        archived_entries: (n - m) as u32,
        cumulative_cost_stroops: cumulative as i128,
        period_cost_stroops: (m * fresh_pair_cost()) as i128,
    }
}

/// How many pairs each scenario tips again at every snapshot after the
/// first: none when dormant, all when active, half when mixed.
pub open spec fn later_active(kind: ActivityKind, total_pairs: u32) -> int {
    match kind {
        ActivityKind::Dormant => 0,
        ActivityKind::Active => total_pairs as int,
        ActivityKind::Mixed => (total_pairs / 2) as int,
    }
}

/// Tipping the first `k` pairs of a state where none is active, when the
/// model tips exactly the pairs below `j`, makes those below `min(k, j)`
/// fresh and costs a fresh pair each.
proof fn lemma_tip_round_fresh(s: Seq<EntryState>, c: int, model: ActivityModel, l: u32, k: nat, j: int)
    requires
        k <= s.len(),
        0 <= j,
        forall|i: int| 0 <= i < s.len() ==> !(#[trigger] s[i] is Active),
        forall|i: int| 0 <= i < s.len() ==> (#[trigger] tips_at(model, i, l) <==> i < j),
    ensures
        tip_round(s, c, model, l, k).0 == Seq::new(
            s.len(),
            |i: int| if i < k && i < j { EntryState::Active { ttl_remaining: LEDGER_BUMP } } else { s[i] },
        ),
        tip_round(s, c, model, l, k).1 == c + (if (k as int) < j { k as int } else { j }) * fresh_pair_cost(),
    decreases k,
{
    if k == 0 {
        assert(s =~= Seq::new(
            s.len(),
            |i: int| if i < 0 && i < j { EntryState::Active { ttl_remaining: LEDGER_BUMP } } else { s[i] },
        ));
    } else {
        lemma_tip_round_fresh(s, c, model, l, (k - 1) as nat, j);
        let (s1, c1) = tip_round(s, c, model, l, (k - 1) as nat);
        let i0 = k - 1;
        assert(s1[i0] == s[i0]);
        assert(tips_at(model, i0, l) <==> i0 < j);
        let target = Seq::new(
            s.len(),
            |i: int| if i < k && i < j { EntryState::Active { ttl_remaining: LEDGER_BUMP } } else { s[i] },
        );
        assert(tip_cost(s1[i0]) == fresh_pair_cost());
        let before = if (i0 as int) < j { i0 as int } else { j };
        assert(c1 == c + before * fresh_pair_cost());
        if i0 < j {
            assert(s1.update(i0, tipped(s1[i0])) =~= target);
            assert(tip_round(s, c, model, l, k).1 == c1 + tip_cost(s1[i0]));
            assert(before * fresh_pair_cost() + fresh_pair_cost() == (before + 1) * fresh_pair_cost()) by (nonlinear_arith);
        } else {
            assert(s1 =~= target);
            assert(tip_round(s, c, model, l, k).1 == c1);
        }
    }
}

/// The active and archived counts of a split state.
proof fn lemma_count_split(n: nat, j: int, rest: EntryState, k: nat)
    requires
        0 <= j <= n,
        k <= n,
        !(rest is Active),
    ensures
        count_active(split_state(n, j, rest), k) == if (k as int) < j { k as int } else { j },
        count_archived(split_state(n, j, rest), k) == if rest is Archived {
            k - (if (k as int) < j { k as int } else { j })
        } else {
            0
        },
    decreases k,
{
    if k > 0 {
        lemma_count_split(n, j, rest, (k - 1) as nat);
    }
}

/// After the first snapshot, every snapshot of a scenario looks the same but
/// for its ledger and cumulative cost: every pair lapsed in the interval
/// before it, and the `m` pairs the model tips again are created anew.
proof fn lemma_later_snapshots(
    n: nat,
    m: int,
    model: ActivityModel,
    l: int,
    total: int,
    c: int,
    s: Seq<EntryState>,
)
    requires
        tips_below(model, n, m),
        0 <= m <= n,
        l > 0,
        l % (SNAPSHOT_INTERVAL as int) == 0,
        total <= u32::MAX,
        s.len() == n,
        l <= total ==> s == Seq::new(n, |i: int| EntryState::Archived),
    ensures
        snapshots_from(s, c, model, l, total, Some(c)).len() == if l > total {
            0
        } else {
            (total - l) / (SNAPSHOT_INTERVAL as int) + 1
        },
        forall|k: int|
            0 <= k < snapshots_from(s, c, model, l, total, Some(c)).len() ==> #[trigger] snapshots_from(
                s,
                c,
                model,
                l,
                total,
                Some(c),
            )[k] == later_snapshot(n, m, l + k * SNAPSHOT_INTERVAL, c + (k + 1) * (m * fresh_pair_cost())),
    decreases total - l + SNAPSHOT_INTERVAL,
{
    if l <= total {
        let lu = l as u32;
        assert forall|i: int| 0 <= i < s.len() implies (#[trigger] tips_at(model, i, lu) <==> i < m) by {
            assert(tips_at(model, i, lu) == (lu == 0 || (i < m && lu % SNAPSHOT_INTERVAL == 0)));
        }
        lemma_tip_round_fresh(s, c, model, lu, n, m);
        let (s1, c1) = tip_round(s, c, model, lu, n);
        assert(s1 =~= split_state(n, m, EntryState::Archived));
        lemma_count_split(n, m, EntryState::Archived, n);
        let mf = m * fresh_pair_cost();
        assert(c1 == c + mf);
        let step = if SNAPSHOT_INTERVAL < total - l { SNAPSHOT_INTERVAL as int } else { total - l };
        let s2 = if l < total { Seq::new(s1.len(), |i: int| decayed(s1[i], step as u32)) } else { s1 };
        if l + SNAPSHOT_INTERVAL <= total {
            assert(s2 =~= Seq::new(n, |i: int| EntryState::Archived));
        }
        lemma_later_snapshots(n, m, model, l + SNAPSHOT_INTERVAL, total, c1, s2);
        let rest = snapshots_from(s2, c1, model, l + SNAPSHOT_INTERVAL, total, Some(c1));
        let snaps = snapshots_from(s, c, model, l, total, Some(c));
        assert(snaps == seq![later_snapshot(n, m, l, c + mf)] + rest);
        if l + SNAPSHOT_INTERVAL <= total {
            assert((total - l) / (SNAPSHOT_INTERVAL as int) == (total - l - SNAPSHOT_INTERVAL) / (
            SNAPSHOT_INTERVAL as int) + 1);
        } else {
            assert((total - l) / (SNAPSHOT_INTERVAL as int) == 0);
        }
        assert forall|k: int| 0 <= k < snaps.len() implies #[trigger] snaps[k] == later_snapshot(
            n,
            m,
            l + k * SNAPSHOT_INTERVAL,
            c + (k + 1) * mf,
        ) by {
            if k > 0 {
                assert(snaps[k] == rest[k - 1]);
                assert(c1 + ((k - 1) + 1) * mf == c + (k + 1) * mf) by (nonlinear_arith)
                    requires
                        c1 == c + mf,
                ;
            } else {
                assert(c + (0 + 1) * mf == c + mf);
            }
        }
    }
}

/// The storage-rent simulation in closed form. From `n` pairs without
/// entries, under a model that tips every pair at the start and the pairs
/// below `m` at every later snapshot: there is one snapshot per interval,
/// the first creates every pair (`n` fresh pairs of 44 192 stroops), and
/// every later one finds all pairs archived, creates the `m` tipped ones
/// anew and adds `m` fresh pairs to the cost.
pub proof fn law_snapshots_closed_form(n: nat, model: ActivityModel, m: int, total: int)
    requires
        tips_below(model, n, m),
        0 <= m <= n,
        0 <= total <= u32::MAX,
    ensures
        ({
            let snaps = snapshots_from(Seq::new(n, |i: int| EntryState::Nonexistent), 0, model, 0, total, None);
            &&& snaps.len() == total / (SNAPSHOT_INTERVAL as int) + 1
            &&& snaps[0] == (Snapshot {
                ledger: 0,
                active_entries: n as u32,
                archived_entries: 0,
                cumulative_cost_stroops: (n * fresh_pair_cost()) as i128,
                period_cost_stroops: (n * fresh_pair_cost()) as i128,
            })
            &&& forall|k: int|
                1 <= k < snaps.len() ==> #[trigger] snaps[k] == later_snapshot(
                    n,
                    m,
                    k * SNAPSHOT_INTERVAL,
                    n * fresh_pair_cost() + k * (m * fresh_pair_cost()),
                )
        }),
{
    let s = Seq::new(n, |i: int| EntryState::Nonexistent);
    assert forall|i: int| 0 <= i < s.len() implies (#[trigger] tips_at(model, i, 0) <==> i < n) by {
        assert(tips_at(model, i, 0u32) == (0u32 == 0 || (i < m && 0u32 % SNAPSHOT_INTERVAL == 0)));
    }
    lemma_tip_round_fresh(s, 0, model, 0, n, n as int);
    let (s1, c1) = tip_round(s, 0, model, 0, n);
    assert(s1 =~= split_state(n, n as int, EntryState::Nonexistent));
    lemma_count_split(n, n as int, EntryState::Nonexistent, n);
    let nf = n * fresh_pair_cost();
    assert(c1 == nf);
    let step = if SNAPSHOT_INTERVAL < total { SNAPSHOT_INTERVAL as int } else { total };
    let s2 = if 0 < total { Seq::new(s1.len(), |i: int| decayed(s1[i], step as u32)) } else { s1 };
    if SNAPSHOT_INTERVAL <= total {
        assert(s2 =~= Seq::new(n, |i: int| EntryState::Archived));
    }
    lemma_later_snapshots(n, m, model, SNAPSHOT_INTERVAL as int, total, c1, s2);
    let rest = snapshots_from(s2, c1, model, SNAPSHOT_INTERVAL as int, total, Some(c1));
    let snaps = snapshots_from(s, 0, model, 0, total, None);
    assert(snaps == seq![
        Snapshot {
            ledger: 0,
            active_entries: n as u32,
            archived_entries: 0,
            cumulative_cost_stroops: nf as i128,
            period_cost_stroops: nf as i128,
        },
    ] + rest);
    if SNAPSHOT_INTERVAL <= total {
        assert(total / (SNAPSHOT_INTERVAL as int) == (total - SNAPSHOT_INTERVAL) / (SNAPSHOT_INTERVAL as int) + 1);
    } else {
        assert(total / (SNAPSHOT_INTERVAL as int) == 0);
    }
    let mf = m * fresh_pair_cost();
    assert forall|k: int| 1 <= k < snaps.len() implies #[trigger] snaps[k] == later_snapshot(
        n,
        m,
        k * SNAPSHOT_INTERVAL,
        nf + k * mf,
    ) by {
        assert(snaps[k] == rest[k - 1]);
        assert(SNAPSHOT_INTERVAL + (k - 1) * SNAPSHOT_INTERVAL == k * SNAPSHOT_INTERVAL);
        assert(c1 + ((k - 1) + 1) * mf == nf + k * mf);
    }
}

/// Each scenario's model tips every pair at the start and, at every later
/// snapshot, the pairs below its `later_active` count.
pub proof fn lemma_model_tips_below(kind: ActivityKind, total_pairs: u32)
    ensures
        tips_below(model_of(kind, total_pairs), total_pairs as nat, later_active(kind, total_pairs)),
        0 <= later_active(kind, total_pairs) <= total_pairs,
{
    let model = model_of(kind, total_pairs);
    let m = later_active(kind, total_pairs);
    assert forall|i: int, l: u32| 0 <= i < total_pairs implies #[trigger] tips_at(model, i, l) == (l == 0 || (i < m
        && l % SNAPSHOT_INTERVAL == 0)) by {
        if l == 0 {
            assert(l % SNAPSHOT_INTERVAL == 0);
        }
    }
}

/// A scenario's result in closed form: over `total` ledgers there are
/// `k = total / SNAPSHOT_INTERVAL` snapshots after the first, the total cost
/// is `pairs + k * later_active` fresh pairs of 44 192 stroops, and once a
/// later snapshot was taken the last one shows `later_active` pairs active
/// and the others archived. A dormant scenario thus costs 44 192 stroops per
/// pair and ends with every pair archived.
pub proof fn law_scenario_closed_form(kind: ActivityKind, pairs: u32, total: int)
    requires
        0 <= total <= u32::MAX,
    ensures
        ({
            let snaps = snapshots_from(
                Seq::new(pairs as nat, |i: int| EntryState::Nonexistent),
                0,
                model_of(kind, pairs),
                0,
                total,
                None,
            );
            let k = total / (SNAPSHOT_INTERVAL as int);
            let m = later_active(kind, pairs);
            &&& snaps.len() == k + 1
            &&& snaps.last().cumulative_cost_stroops == (pairs * fresh_pair_cost() + k * (m * fresh_pair_cost())) as i128
            &&& k >= 1 ==> snaps.last().active_entries == m as u32 && snaps.last().archived_entries == (pairs - m) as u32
        }),
{
    lemma_model_tips_below(kind, pairs);
    let m = later_active(kind, pairs);
    law_snapshots_closed_form(pairs as nat, model_of(kind, pairs), m, total);
    let snaps = snapshots_from(
        Seq::new(pairs as nat, |i: int| EntryState::Nonexistent),
        0,
        model_of(kind, pairs),
        0,
        total,
        None,
    );
    let k = total / (SNAPSHOT_INTERVAL as int);
    if k >= 1 {
        assert(snaps.last() == snaps[k]);
    } else {
        assert(k * (m * fresh_pair_cost()) == 0);
    }
}

/// Tipping a pair in state `e` never lowers the cost and leaves it active.
pub proof fn lemma_tip_cost_positive(e: EntryState)
    ensures
        tip_cost(e) > 0,
        tip_cost(e) <= 2 * ENTRY_CREATION_COST_STROOPS + 2 * TTL_EXTENSION_COST_STROOPS,
        tipped(e) is Active,
{
}


/// Runs the storage-rent simulation of `creators * tokens_per_creator`
/// pairs over `years` years under the activity model `kind`; returns the
/// snapshots and their integer summary.
pub fn run_simulation(creators: u32, tokens_per_creator: u32, years: u32, kind: ActivityKind) -> (r: (
    Vec<Snapshot>,
    SimSummary,
))
    requires
        creators * tokens_per_creator <= u32::MAX,
        years * LEDGERS_PER_YEAR <= u32::MAX,
    ensures
        ({
            let pairs = (creators * tokens_per_creator) as u32;
            let snaps = snapshots_from(
                Seq::new(pairs as nat, |i: int| EntryState::Nonexistent),
                0,
                model_of(kind, pairs),
                0,
                years * LEDGERS_PER_YEAR,
                None,
            );
            &&& snaps.len() > 0
            &&& r.0@ == snaps
            &&& r.1 == (SimSummary {
                total_pairs: pairs,
                peak_active_entries: peak_active(snaps),
                final_active_entries: snaps.last().active_entries,
                final_archived_entries: snaps.last().archived_entries,
                total_cost_stroops: snaps.last().cumulative_cost_stroops,
            })
        }),
{
    let total_pairs = creators * tokens_per_creator;
    let total_ledgers = years * LEDGERS_PER_YEAR;
    let model = match kind {
        ActivityKind::Active => ActivityModel::Active,
        ActivityKind::Dormant => ActivityModel::Dormant,
        ActivityKind::Mixed => ActivityModel::Mixed(MixedModel::new(total_pairs)),
    };
    let mut state = SimulationState::new(total_pairs);
    let mut snapshots: Vec<Snapshot> = Vec::new();
    let ghost target = snapshots_from(state.entries@, 0, model, 0, total_ledgers as int, None);
    let ghost mut prev: Option<int> = None;
    let ghost mut steps: int = 0;
    let mut ledger: u64 = 0;
    while ledger <= total_ledgers as u64
        invariant
            model == model_of(kind, total_pairs),
            state.entries@.len() == total_pairs,
            state.current_ledger == ledger || ledger > total_ledgers,
            ledger == steps * SNAPSHOT_INTERVAL,
            0 <= steps,
            0 <= state.cumulative_cost <= 44_192 * (steps * total_pairs),
            prev is None <==> snapshots@.len() == 0,
            prev matches Some(p) ==> p == state.cumulative_cost && snapshots@.last().cumulative_cost_stroops == p,
            snapshots@ + snapshots_from(state.entries@, state.cumulative_cost as int, model, ledger as int, total_ledgers as int, prev) == target,
        decreases total_ledgers as u64 + SNAPSHOT_INTERVAL - ledger,
    {
        proof {
            assert(steps <= 8_286) by (nonlinear_arith)
                requires
                    steps * SNAPSHOT_INTERVAL <= u32::MAX,
                    SNAPSHOT_INTERVAL == 518_400,
            ;
            assert(44_192 * ((steps + 1) * total_pairs) <= i128::MAX) by (nonlinear_arith)
                requires
                    0 <= steps <= 8_286,
                    0 <= total_pairs <= u32::MAX,
            ;
        }
        let ghost s0 = state.entries@;
        let ghost c0 = state.cumulative_cost as int;
        let mut idx: usize = 0;
        while idx < total_pairs as usize
            invariant
                idx <= total_pairs,
                s0.len() == total_pairs,
                state.entries@.len() == total_pairs,
                steps >= 0,
                ledger <= u32::MAX,
                (state.entries@, state.cumulative_cost as int) == tip_round(s0, c0, model, ledger as u32, idx as nat),
                0 <= c0 <= 44_192 * (steps * total_pairs),
                0 <= state.cumulative_cost <= c0 + 44_192 * idx,
                44_192 * ((steps + 1) * total_pairs) <= i128::MAX,
                state.current_ledger == ledger,
            decreases total_pairs - idx,
        {
            proof {
                assert(44_192 * (steps * total_pairs) + 44_192 * (idx + 1) <= 44_192 * ((steps + 1) * total_pairs)) by (nonlinear_arith)
                    requires
                        idx + 1 <= total_pairs,
                        steps >= 0,
                ;
                lemma_tip_cost_positive(state.entries@[idx as int]);
            }
            if model.should_tip(idx, ledger as u32) {
                state.tip(idx);
            }
            idx = idx + 1;
        }
        proof {
            assert(44_192 * (steps * total_pairs) + 44_192 * total_pairs == 44_192 * ((steps + 1) * total_pairs)) by (nonlinear_arith);
        }
        let (active, archived) = state.count_entries();
        let period_cost = if snapshots.len() == 0 {
            state.cumulative_cost
        } else {
            state.cumulative_cost - snapshots[snapshots.len() - 1].cumulative_cost_stroops
        };
        snapshots.push(
            Snapshot {
                ledger: ledger as u32,
                active_entries: active,
                archived_entries: archived,
                cumulative_cost_stroops: state.cumulative_cost,
                period_cost_stroops: period_cost,
            },
        );
        if ledger < total_ledgers as u64 {
            let rest = total_ledgers - ledger as u32;
            let step = if SNAPSHOT_INTERVAL < rest { SNAPSHOT_INTERVAL } else { rest };
            state.advance(step);
        }
        proof {
            prev = Some(state.cumulative_cost as int);
            steps = steps + 1;
        }
        ledger = ledger + SNAPSHOT_INTERVAL as u64;
    }
    let mut peak: u32 = 0;
    let mut k: usize = 0;
    while k < snapshots.len()
        invariant
            k <= snapshots@.len(),
            peak == peak_active(snapshots@.take(k as int)),
        decreases snapshots@.len() - k,
    {
        proof {
            assert(snapshots@.take(k + 1).drop_last() == snapshots@.take(k as int));
        }
        if snapshots[k].active_entries > peak {
            peak = snapshots[k].active_entries;
        }
        k = k + 1;
    }
    proof {
        assert(snapshots@.take(snapshots@.len() as int) == snapshots@);
    }
    let last = snapshots[snapshots.len() - 1];
    let summary = SimSummary {
        total_pairs,
        peak_active_entries: peak,
        final_active_entries: last.active_entries,
        final_archived_entries: last.archived_entries,
        total_cost_stroops: last.cumulative_cost_stroops,
    };
    (snapshots, summary)
}

impl MixedModel {
    /// The mixed model of `total_pairs` pairs: the lower half is active.
    pub fn new(total_pairs: u32) -> (m: MixedModel)
        ensures
            m == (MixedModel { active_cutoff: (total_pairs / 2) as usize }),
    {
        MixedModel { active_cutoff: (total_pairs / 2) as usize }
    }
}

impl ActivityModel {
    /// Whether pair `idx` is tipped at `ledger`.
    pub fn should_tip(&self, idx: usize, ledger: u32) -> (r: bool)
        ensures
            r == tips_at(*self, idx as int, ledger),
    {
        match self {
            ActivityModel::Dormant => ledger == 0,
            ActivityModel::Active => ledger % SNAPSHOT_INTERVAL == 0,
            ActivityModel::Mixed(m) => {
                if idx < m.active_cutoff {
                    ledger % SNAPSHOT_INTERVAL == 0
                } else {
                    ledger == 0
                }
            },
        }
    }
}

impl SimulationState {
    /// `total_pairs` pairs, none created yet, at ledger 0 and no cost.
    pub fn new(total_pairs: u32) -> (st: SimulationState)
        ensures
            st.entries@ == Seq::new(total_pairs as nat, |i: int| EntryState::Nonexistent),
            st.current_ledger == 0,
            st.cumulative_cost == 0,
    {
        let mut entries: Vec<EntryState> = Vec::new();
        let mut i: u32 = 0;
        while i < total_pairs
            invariant
                i <= total_pairs,
                entries@ == Seq::new(i as nat, |k: int| EntryState::Nonexistent),
            decreases total_pairs - i,
        {
            entries.push(EntryState::Nonexistent);
            i = i + 1;
            proof {
                assert(entries@ =~= Seq::new(i as nat, |k: int| EntryState::Nonexistent));
            }
        }
        SimulationState { entries, current_ledger: 0, cumulative_cost: 0 }
    }

    /// A tip to pair `idx`: creates its entries (or re-creates archived
    /// ones) with a fresh TTL, or renews live ones by `LEDGER_BUMP`.
    pub fn tip(&mut self, idx: usize)
        requires
            idx < old(self).entries@.len(),
            old(self).cumulative_cost + tip_cost(old(self).entries@[idx as int]) <= i128::MAX,
        ensures
            final(self).entries@ == old(self).entries@.update(idx as int, tipped(old(self).entries@[idx as int])),
            final(self).cumulative_cost == old(self).cumulative_cost + tip_cost(old(self).entries@[idx as int]),
            final(self).cumulative_cost > old(self).cumulative_cost,
            final(self).current_ledger == old(self).current_ledger,
    {
        match self.entries[idx] {
            EntryState::Nonexistent => {
                let creation_cost = 2 * ENTRY_CREATION_COST_STROOPS;
                let ttl_cost = 2 * TTL_EXTENSION_COST_STROOPS;
                self.cumulative_cost = self.cumulative_cost + (creation_cost + ttl_cost);
                self.entries.set(idx, EntryState::Active { ttl_remaining: LEDGER_BUMP });
            },
            EntryState::Active { ttl_remaining } => {
                let ttl_cost = 2 * TTL_EXTENSION_COST_STROOPS;
                self.cumulative_cost = self.cumulative_cost + ttl_cost;
                let ttl = match ttl_remaining.checked_add(LEDGER_BUMP) {
                    Some(t) => t,
                    None => u32::MAX,
                };
                self.entries.set(idx, EntryState::Active { ttl_remaining: ttl });
            },
            EntryState::Archived => {
                let creation_cost = 2 * ENTRY_CREATION_COST_STROOPS;
                let ttl_cost = 2 * TTL_EXTENSION_COST_STROOPS;
                self.cumulative_cost = self.cumulative_cost + (creation_cost + ttl_cost);
                self.entries.set(idx, EntryState::Active { ttl_remaining: LEDGER_BUMP });
            },
        }
    }

    /// Moves `ledgers` ledgers on: each live entry loses that much TTL and
    /// is archived when it runs out; the cost does not change.
    pub fn advance(&mut self, ledgers: u32)
        requires
            old(self).current_ledger + ledgers <= u32::MAX,
        ensures
            final(self).current_ledger == old(self).current_ledger + ledgers,
            final(self).entries@ == Seq::new(
                old(self).entries@.len(),
                |i: int| decayed(old(self).entries@[i], ledgers),
            ),
            final(self).cumulative_cost == old(self).cumulative_cost,
    {
        self.current_ledger = self.current_ledger + ledgers;
        let ghost e0 = self.entries@;
        let mut i: usize = 0;
        while i < self.entries.len()
            invariant
                i <= e0.len(),
                self.entries@.len() == e0.len(),
                forall|k: int| 0 <= k < i ==> #[trigger] self.entries@[k] == decayed(e0[k], ledgers),
                forall|k: int| i <= k < e0.len() ==> #[trigger] self.entries@[k] == e0[k],
                self.current_ledger == old(self).current_ledger + ledgers,
                self.cumulative_cost == old(self).cumulative_cost,
            decreases e0.len() - i,
        {
            match self.entries[i] {
                EntryState::Active { ttl_remaining } => {
                    if ttl_remaining <= ledgers {
                        self.entries.set(i, EntryState::Archived);
                    } else {
                        self.entries.set(i, EntryState::Active { ttl_remaining: ttl_remaining - ledgers });
                    }
                },
                _ => {},
            }
            i = i + 1;
        }
        proof {
            assert(self.entries@ =~= Seq::new(e0.len(), |i: int| decayed(e0[i], ledgers)));
        }
    }

    /// The numbers of active and of archived entries.
    pub fn count_entries(&self) -> (r: (u32, u32))
        requires
            self.entries@.len() <= u32::MAX,
        ensures
            r.0 == count_active(self.entries@, self.entries@.len()),
            r.1 == count_archived(self.entries@, self.entries@.len()),
    {
        let mut active: u32 = 0;
        let mut archived: u32 = 0;
        let mut i: usize = 0;
        while i < self.entries.len()
            invariant
                i <= self.entries@.len() <= u32::MAX,
                active == count_active(self.entries@, i as nat),
                archived == count_archived(self.entries@, i as nat),
                active + archived <= i,
            decreases self.entries@.len() - i,
        {
            match self.entries[i] {
                EntryState::Active { .. } => {
                    active = active + 1;
                },
                EntryState::Archived => {
                    archived = archived + 1;
                },
                EntryState::Nonexistent => {},
            }
            i = i + 1;
        }
        (active, archived)
    }
}

/// A recommendation of the storage-rent report.
#[derive(Clone, Copy, Debug, PartialEq, Eq, Structural)]
pub enum Recommendation {
    /// Some entries archived after their TTL ran out.
    Archived,
    /// Some entries are still alive at the end.
    StillActive,
    /// The run cost something.
    TotalCost,
    /// The outlook of the dormant model.
    DormantOutlook,
    /// The outlook of the active model.
    ActiveOutlook,
    /// The outlook of the mixed model.
    MixedOutlook,
    /// No manual cleanup is needed.
    OperationalPlan,
    /// Which calls extend TTLs.
    ReadPathTtl,
    /// Batch low-value tips.
    ConsiderBatching,
}

/// `r` when `cond` holds, else nothing.
pub open spec fn listed_if(cond: bool, r: Recommendation) -> Seq<Recommendation> {
    if cond { seq![r] } else { Seq::empty() }
}

/// The recommendations for a run of `kind` with `summary`; `costly` tells
/// whether the average cost per creator and year exceeds 0.001 XLM.
pub open spec fn recommendation_list(summary: SimSummary, kind: ActivityKind, costly: bool) -> Seq<
    Recommendation,
> {
    listed_if(summary.final_archived_entries > 0, Recommendation::Archived)
        + listed_if(summary.final_active_entries > 0, Recommendation::StillActive)
        + listed_if(summary.total_cost_stroops > 0, Recommendation::TotalCost)
        + seq![
        match kind {
            ActivityKind::Dormant => Recommendation::DormantOutlook,
            ActivityKind::Active => Recommendation::ActiveOutlook,
            ActivityKind::Mixed => Recommendation::MixedOutlook,
        },
    ] + seq![Recommendation::OperationalPlan, Recommendation::ReadPathTtl] + listed_if(
        costly,
        Recommendation::ConsiderBatching,
    )
}

/// The recommendations of the report, in order: archived entries, entries
/// still alive and the total cost where there are any, the model's
/// outlook, the operational plan, the TTL behaviour of reads, and batching
/// where the average cost is high (`costly`).
pub fn recommendations(summary: &SimSummary, kind: ActivityKind, costly: bool) -> (r: Vec<Recommendation>)
    ensures
        r@ == recommendation_list(*summary, kind, costly),
{
    let mut r: Vec<Recommendation> = Vec::new();
    if summary.final_archived_entries > 0 {
        r.push(Recommendation::Archived);
    }
    if summary.final_active_entries > 0 {
        r.push(Recommendation::StillActive);
    }
    if summary.total_cost_stroops > 0 {
        r.push(Recommendation::TotalCost);
    }
    match kind {
        ActivityKind::Dormant => r.push(Recommendation::DormantOutlook),
        ActivityKind::Active => r.push(Recommendation::ActiveOutlook),
        ActivityKind::Mixed => r.push(Recommendation::MixedOutlook),
    }
    r.push(Recommendation::OperationalPlan);
    r.push(Recommendation::ReadPathTtl);
    if costly {
        r.push(Recommendation::ConsiderBatching);
    }
    assert(r@ =~= recommendation_list(*summary, kind, costly));
    r
}

} // verus!
