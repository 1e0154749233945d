//! Tip lottery: tippers earn entries in the open round; after the round
//! ends the admin draws distinct winners from the weighted ticket list with
//! a linear-congruential generator seeded from the ledger; winners claim
//! tiered prizes and the admin reclaims unclaimed ones.
use vstd::prelude::*;
use crate::common::Transfer;
use crate::table::{Table, pair, pair_key, get_or};

verus! {

/// Smallest tip that earns an entry (1 token at 7 decimals).
pub const MIN_TIP_FOR_ENTRY: i128 = 10_000_000;
/// Most winners a round pays a tiered prize to.
pub const MAX_WINNERS_PER_ROUND: u32 = 10;
/// Most entries one tipper can hold in a round.
pub const MAX_ENTRIES_PER_TIPPER: u32 = 100;

/// Multiplier of the generator.
pub const LCG_MUL: u64 = 6364136223846793005;
/// Increment of the generator.
pub const LCG_INC: u64 = 1442695040888963407;

/// Status of a lottery round.
#[derive(Clone, Copy, Debug, PartialEq, Eq, Structural)]
pub enum LotteryStatus {
    Open,
    Drawing,
    Completed,
    Cancelled,
}

/// Errors of the lottery.
#[derive(Clone, Copy, Debug, PartialEq, Eq)]
pub enum LotteryError {
    Unauthorized,
    LotteryRoundNotFound,
    LotteryRoundNotOpen,
    LotteryRoundNotEnded,
    LotteryRoundNotCompleted,
    LotteryWinnerNotFound,
    LotteryPrizeAlreadyClaimed,
    NothingToWithdraw,
    /// The round has no entries to draw from.
    LotteryRoundNoEntries,
}

/// A lottery round.
#[derive(Clone, Copy, Debug, PartialEq, Eq)]
pub struct LotteryRound {
    pub id: u64,
    pub prize_token: u64,
    pub prize_pool: i128,
    pub winner_count: u32,
    pub min_tip_amount: i128,
    pub start_time: u64,
    pub end_time: u64,
    pub status: LotteryStatus,
    pub total_entries: u64,
    pub created_at: u64,
    pub drawn_at: Option<u64>,
}

/// A tipper's entries in a round.
#[derive(Clone, Copy, Debug, PartialEq, Eq)]
pub struct LotteryEntry {
    pub round_id: u64,
    pub tipper: u64,
    pub entry_count: u32,
    pub total_tipped: i128,
    pub first_entry_at: u64,
    pub last_entry_at: u64,
}

/// A drawn winner.
#[derive(Clone, Copy, Debug, PartialEq, Eq)]
pub struct LotteryWinner {
    pub round_id: u64,
    pub winner: u64,
    pub prize_amount: i128,
    pub position: u32,
    pub claimed_at: Option<u64>,
}

// ── prizes ───────────────────────────────────────────────────────────────

/// The prize of position `i` (0-based) for `winner_count` winners and a
/// pool of `pool`: 100%; 70/30; 60/25/15; or 50% to the first and the rest
/// split equally, the last taking the rounding remainder.
#[verifier::opaque]
pub open spec fn prize_spec(pool: int, winner_count: int, i: int) -> int {
    let n = if winner_count > 10 { 10 } else { winner_count };
    if winner_count == 0 || pool <= 0 || i < 0 || i >= n {
        0
    } else if n == 1 {
        pool
    } else if n == 2 {
        if i == 0 { pool * 7000 / 10000 } else { pool - pool * 7000 / 10000 }
    } else if n == 3 {
        if i == 0 {
            pool * 6000 / 10000
        } else if i == 1 {
            pool * 2500 / 10000
        } else {
            pool - pool * 6000 / 10000 - pool * 2500 / 10000
        }
    } else {
        let first = pool * 5000 / 10000;
        let per = (pool - first) / (n - 1);
        if i == 0 {
            first
        } else if i < n - 1 {
            per
        } else {
            pool - first - per * (n - 2)
        }
    }
}

/// The inputs on which the prize products fit in `i128`: the one product
/// that `winner_count` winners compute (pool × 7000 for two, × 6000 and
/// × 2500 for three, × 5000 for four or more, none for one or an empty pool).
pub open spec fn prizes_defined(pool: int, winner_count: int) -> bool {
    let n = if winner_count > 10 { 10 } else { winner_count };
    if winner_count <= 0 || pool <= 0 || n == 1 {
        true
    } else if n == 2 {
        pool * 7000 <= i128::MAX
    } else if n == 3 {
        pool * 6000 <= i128::MAX
    } else {
        pool * 5000 <= i128::MAX
    }
}

/// Prize amounts for positions 0..10 (zero past the winner count).
pub fn calculate_prize_amounts(prize_pool: i128, winner_count: u32) -> (amounts: [i128; 10])
    requires
        prizes_defined(prize_pool as int, winner_count as int),
    ensures
        forall|i: int| 0 <= i < 10 ==> amounts@[i] == prize_spec(prize_pool as int, winner_count as int, i),
{
    proof {
        reveal(prize_spec);
    }
    let mut amounts = [0i128; 10];
    if winner_count == 0 || prize_pool <= 0 {
        return amounts;
    }
    let n: usize = if winner_count > MAX_WINNERS_PER_ROUND { 10 } else { winner_count as usize };
    if n == 1 {
        amounts[0] = prize_pool;
    } else if n == 2 {
        let a0 = prize_pool * 7_000 / 10_000;
        amounts[0] = a0;
        amounts[1] = prize_pool - a0;
    } else if n == 3 {
        let a0 = prize_pool * 6_000 / 10_000;
        let a1 = prize_pool * 2_500 / 10_000;
        amounts[0] = a0;
        amounts[1] = a1;
        amounts[2] = prize_pool - a0 - a1;
    } else {
        let a0 = prize_pool * 5_000 / 10_000;
        amounts[0] = a0;
        let remainder = prize_pool - a0;
        let per_winner = remainder / (n as i128 - 1);
        let mut distributed = a0;
        let mut i: usize = 1;
        while i < n - 1
            invariant
                4 <= n <= 10,
                1 <= i <= n - 1,
                n as int == (if winner_count > 10 { 10 } else { winner_count as int }),
                winner_count > 0,
                prize_pool > 0,
                prize_pool * 5000 <= i128::MAX,
                a0 == prize_pool * 5000 / 10000,
                per_winner == (prize_pool - a0) / (n - 1),
                0 <= per_winner <= prize_pool,
                distributed == a0 + per_winner * (i - 1),
                amounts@[0] == a0,
                forall|j: int| 1 <= j < i ==> amounts@[j] == per_winner,
                forall|j: int| i <= j < 10 ==> amounts@[j] == 0,
            decreases n - 1 - i,
        {
            amounts[i] = per_winner;
            proof {
                assert(per_winner * (i - 1) + per_winner == per_winner * i) by (nonlinear_arith);
                assert(per_winner * i <= prize_pool * 10) by (nonlinear_arith)
                    requires 0 <= per_winner <= prize_pool, 0 <= i <= 10;
            }
            distributed = distributed + per_winner;
            i = i + 1;
        }
        amounts[n - 1] = prize_pool - distributed;
    }
    amounts
}

/// No rounding loss: for a positive pool and at least one winner, the prizes
/// add up to the whole pool, and none is negative.
pub proof fn law_prizes_sum_to_pool(pool: int, winner_count: int)
    requires
        pool > 0,
        winner_count > 0,
    ensures
        prize_spec(pool, winner_count, 0) + prize_spec(pool, winner_count, 1) + prize_spec(
            pool,
            winner_count,
            2,
        ) + prize_spec(pool, winner_count, 3) + prize_spec(pool, winner_count, 4) + prize_spec(
            pool,
            winner_count,
            5,
        ) + prize_spec(pool, winner_count, 6) + prize_spec(pool, winner_count, 7) + prize_spec(
            pool,
            winner_count,
            8,
        ) + prize_spec(pool, winner_count, 9) == pool,
        forall|i: int| 0 <= i < 10 ==> prize_spec(pool, winner_count, i) >= 0,
{
    reveal(prize_spec);
    let n = if winner_count > 10 { 10 } else { winner_count };
    let first = pool * 5000 / 10000;
    assert(0 <= first <= pool / 2) by (nonlinear_arith)
        requires pool > 0, first == pool * 5000 / 10000;
    assert(0 <= pool * 7000 / 10000 <= pool) by (nonlinear_arith)
        requires pool > 0;
    assert(0 <= pool * 6000 / 10000 && 0 <= pool * 2500 / 10000 && pool * 6000 / 10000
        + pool * 2500 / 10000 <= pool) by (nonlinear_arith)
        requires pool > 0;
    if n >= 4 {
        let per = (pool - first) / (n - 1);
        assert(0 <= per && per * (n - 1) <= pool - first) by (nonlinear_arith)
            requires pool - first >= 0, n - 1 >= 3, per == (pool - first) / (n - 1);
        assert(per * (n - 2) <= per * (n - 1)) by (nonlinear_arith)
            requires per >= 0, n >= 4;
        assert(per * (n - 2) == per * n - 2 * per) by (nonlinear_arith);
        if n == 4 { assert(per * (n - 2) == per + per) by (nonlinear_arith) requires n == 4; }
        if n == 5 { assert(per * (n - 2) == per + per + per) by (nonlinear_arith) requires n == 5; }
        if n == 6 { assert(per * (n - 2) == per + per + per + per) by (nonlinear_arith) requires n == 6; }
        if n == 7 { assert(per * (n - 2) == per + per + per + per + per) by (nonlinear_arith) requires n == 7; }
        if n == 8 { assert(per * (n - 2) == per + per + per + per + per + per) by (nonlinear_arith) requires n == 8; }
        if n == 9 { assert(per * (n - 2) == per + per + per + per + per + per + per) by (nonlinear_arith) requires n == 9; }
        if n == 10 { assert(per * (n - 2) == per + per + per + per + per + per + per + per) by (nonlinear_arith) requires n == 10; }
    }
}

// ── generator ────────────────────────────────────────────────────────────

/// One step of the generator: `x * LCG_MUL + LCG_INC` modulo 2^64.
#[verifier::opaque]
pub open spec fn lcg_next(x: u64) -> u64 {
    x.wrapping_mul(LCG_MUL).wrapping_add(LCG_INC)
}

/// Advances the generator by one step.
fn lcg_step(x: u64) -> (r: u64)
    ensures
        r == lcg_next(x),
{
    proof {
        reveal(lcg_next);
    }
    x.wrapping_mul(LCG_MUL).wrapping_add(LCG_INC)
}

/// One step of the draw, unfolded.
proof fn lemma_select_step(
    tickets: Seq<u64>,
    count: nat,
    max_attempts: nat,
    rng: u64,
    attempts: nat,
    selected: Seq<u64>,
    indices: Seq<u64>,
)
    requires
        selected.len() < count,
        attempts < max_attempts,
        tickets.len() > 0,
    ensures
        ({
            let next = lcg_next(rng);
            let idx = (next as int % (tickets.len() as int)) as u64;
            select_from(tickets, count, max_attempts, rng, attempts, selected, indices) == if indices.contains(idx) {
                select_from(tickets, count, max_attempts, next, attempts + 1, selected, indices)
            } else if selected.contains(tickets[idx as int]) {
                select_from(tickets, count, max_attempts, next, attempts + 1, selected, indices.push(idx))
            } else {
                select_from(tickets, count, max_attempts, next, 0, selected.push(tickets[idx as int]), indices.push(idx))
            }
        }),
{
    reveal_with_fuel(select_from, 1);
}

/// The seed of a draw from the ledger sequence, its timestamp and the round.
pub open spec fn seed_spec(sequence: u32, timestamp: u64, round_id: u64) -> u64 {
    (sequence as u64).wrapping_mul(6364136223846793005).wrapping_add(1442695040888963407) ^ timestamp.wrapping_mul(
        2862933555777941757,
    ) ^ round_id.wrapping_mul(3935559000370003845)
}

/// Derives the draw seed.
pub fn derive_seed(sequence: u32, timestamp: u64, round_id: u64) -> (r: u64)
    ensures
        r == seed_spec(sequence, timestamp, round_id),
{
    (sequence as u64).wrapping_mul(6364136223846793005).wrapping_add(1442695040888963407)
        ^ timestamp.wrapping_mul(2862933555777941757) ^ round_id.wrapping_mul(3935559000370003845)
}

/// Attempt budget of a draw of `count` winners: `max(count * 20, 200)`,
/// with the product saturating.
pub open spec fn max_attempts_spec(count: u32) -> u32 {
    let p = if count * 20 > u32::MAX { u32::MAX } else { (count * 20) as u32 };
    if p > 200 { p } else { 200 }
}

/// The draw from `rng` on: each step advances the generator and takes the
/// ticket at `rng % tickets.len()`; an index or an address already drawn
/// costs an attempt; a new address is selected and resets the attempts. It
/// stops at `count` winners or after `max_attempts` wasted attempts in a row.
#[verifier::opaque]
pub open spec fn select_from(
    tickets: Seq<u64>,
    count: nat,
    max_attempts: nat,
    rng: u64,
    attempts: nat,
    selected: Seq<u64>,
    indices: Seq<u64>,
) -> Seq<u64>
    decreases count - selected.len(), max_attempts - attempts,
{
    if selected.len() >= count || attempts >= max_attempts || tickets.len() == 0 {
        selected
    } else {
        let next = lcg_next(rng);
        let idx = (next as int % (tickets.len() as int)) as u64;
        if indices.contains(idx) {
            select_from(tickets, count, max_attempts, next, attempts + 1, selected, indices)
        } else if selected.contains(tickets[idx as int]) {
            select_from(tickets, count, max_attempts, next, attempts + 1, selected, indices.push(idx))
        } else {
            select_from(
                tickets,
                count,
                max_attempts,
                next,
                0,
                selected.push(tickets[idx as int]),
                indices.push(idx),
            )
        }
    }
}

fn vec_contains(v: &Vec<u64>, x: u64) -> (r: bool)
    ensures
        r == v@.contains(x),
{
    let mut i: usize = 0;
    while i < v.len()
        invariant
            0 <= i <= v@.len(),
            forall|j: int| 0 <= j < i ==> v@[j] != x,
        decreases v@.len() - i,
    {
        if v[i] == x {
            return true;
        }
        i = i + 1;
    }
    false
}

/// Selects up to `count` distinct addresses from the weighted ticket list.
#[verifier::rlimit(40)]
pub fn select_without_replacement(tickets: &Vec<u64>, count: u32, seed: u64) -> (r: Vec<u64>)
    requires
        tickets@.len() <= u64::MAX,
    ensures
        r@ == select_from(
            tickets@,
            count as nat,
            max_attempts_spec(count) as nat,
            seed,
            0,
            Seq::empty(),
            Seq::empty(),
        ),
        r@.len() <= count,
{
    proof {
        reveal_with_fuel(select_from, 1);
    }
    let mut selected: Vec<u64> = Vec::new();
    let mut indices: Vec<u64> = Vec::new();
    let n: usize = tickets.len();
    let total = n as u64;
    let mut rng = seed;
    let mut attempts: u32 = 0;
    let product: u32 = match count.checked_mul(20) {
        Some(p) => p,
        None => u32::MAX,
    };
    let max_attempts: u32 = if product > 200 { product } else { 200 };
    let ghost goal = select_from(
        tickets@,
        count as nat,
        max_attempts as nat,
        seed,
        0,
        Seq::empty(),
        Seq::empty(),
    );
    if total == 0 {
        return selected;
    }
    while selected.len() < count as usize && attempts < max_attempts
        invariant
            total == tickets@.len(),
            n == tickets@.len(),
            total == n,
            total > 0,
            selected@.len() <= count,
            attempts <= max_attempts,
            max_attempts == max_attempts_spec(count),
            select_from(
                tickets@,
                count as nat,
                max_attempts as nat,
                rng,
                attempts as nat,
                selected@,
                indices@,
            ) == goal,
        decreases count - selected@.len(), max_attempts - attempts,
    {
        let ghost old_rng = rng;
        let ghost old_sel = selected@;
        let ghost old_idx = indices@;
        let ghost old_att = attempts as nat;
        rng = lcg_step(rng);
        let idx = rng % total;
        proof {
            lemma_select_step(tickets@, count as nat, max_attempts as nat, old_rng, old_att, old_sel, old_idx);
            assert(idx == (rng as int % (tickets@.len() as int)) as u64);
            assert(idx < tickets@.len());
        }
        if vec_contains(&indices, idx) {
            attempts = attempts + 1;
        } else {
            assert(idx < tickets.len());
            let i: usize = idx as usize;
            assert(i as int == idx as int);
            let winner = tickets[i];
            if vec_contains(&selected, winner) {
                indices.push(idx);
                attempts = attempts + 1;
            } else {
                indices.push(idx);
                selected.push(winner);
                attempts = 0;
            }
        }
    }
    selected
}

// ── lottery state ────────────────────────────────────────────────────────

/// State of the lottery.
pub struct Lottery {
    /// This contract's own address (holds the prize pools).
    pub contract: u64,
    pub admin: Option<u64>,
    /// The round tips currently enter, if any.
    pub active_round: Option<u64>,
    pub rounds: Table<LotteryRound>,
    /// Entries per `pair(round_id, tipper)`.
    pub entries: Table<LotteryEntry>,
    /// `(round_id, tipper)` in the order tippers first entered.
    pub round_tippers: Vec<(u64, u64)>,
    /// Winners per `pair(round_id, position)`, positions from 1.
    pub winners: Table<LotteryWinner>,
    /// `(round_id, winner)` in drawing order.
    pub round_winners: Vec<(u64, u64)>,
    /// What the lottery published, oldest first.
    pub events: Vec<LotteryEvent>,
}

/// What the lottery publishes.
#[derive(Clone, Copy, Debug, PartialEq, Eq, Structural)]
pub enum LotteryEvent {
    /// `lot_entr`: a tip earned `entries_added` entries; the tipper now holds
    /// `entry_count`.
    Entered { tipper: u64, round_id: u64, entries_added: u32, entry_count: u32 },
    /// `lot_draw`: a round was drawn with `winner_count` winners.
    Drawn { round_id: u64, winner_count: u32, prize_pool: i128 },
    /// `lot_clm`: a winner claimed the prize at `position`.
    Claimed { winner: u64, round_id: u64, position: u32, prize: i128 },
    /// `lot_rclm`: the admin took back `total` in unclaimed prizes.
    Reclaimed { admin: u64, round_id: u64, total: i128 },
}

/// The addresses of `log` entries for `round`, in order.
#[verifier::opaque]
pub open spec fn members_of(log: Seq<(u64, u64)>, round: u64) -> Seq<u64>
    decreases log.len(),
{
    if log.len() == 0 {
        Seq::empty()
    } else {
        let rest = members_of(log.drop_last(), round);
        if log.last().0 == round { rest.push(log.last().1) } else { rest }
    }
}

fn collect_members(log: &Vec<(u64, u64)>, round: u64) -> (r: Vec<u64>)
    ensures
        r@ == members_of(log@, round),
{
    proof {
        reveal_with_fuel(members_of, 1);
    }
    let mut r: Vec<u64> = Vec::new();
    let mut i: usize = 0;
    while i < log.len()
        invariant
            0 <= i <= log@.len(),
            r@ == members_of(log@.take(i as int), round),
        decreases log@.len() - i,
    {
        proof {
            reveal_with_fuel(members_of, 1);
            assert(log@.take(i + 1).drop_last() == log@.take(i as int));
        }
        let (rd, a) = log[i];
        if rd == round {
            r.push(a);
        }
        i = i + 1;
    }
    proof {
        assert(log@.take(log@.len() as int) == log@);
    }
    r
}

/// The weighted ticket list of a round: each tipper with an entry appears
/// once per entry, in the order tippers entered.
#[verifier::opaque]
pub open spec fn tickets_of(tippers: Seq<u64>, entries: Map<u128, LotteryEntry>, round: u64) -> Seq<
    u64,
>
    decreases tippers.len(),
{
    if tippers.len() == 0 {
        Seq::empty()
    } else {
        let t = tippers.last();
        let rest = tickets_of(tippers.drop_last(), entries, round);
        if entries.contains_key(pair(round, t)) {
            rest + Seq::new(entries[pair(round, t)].entry_count as nat, |_i: int| t)
        } else {
            rest
        }
    }
}

/// Entries a tip of `amount` earns for `tipper` at `now`: one per
/// `MIN_TIP_FOR_ENTRY`, up to the per-tipper cap, and only into the active,
/// open round whose window holds `now` and whose minimum the tip meets.
pub open spec fn entries_earned(l: &Lottery, now: u64, tipper: u64, amount: i128) -> u32 {
    if amount < MIN_TIP_FOR_ENTRY {
        0
    } else {
        match l.active_round {
            None => 0,
            Some(rid) => if !l.rounds@.contains_key(rid as u128) {
                0
            } else {
                let round = l.rounds@[rid as u128];
                if round.status != LotteryStatus::Open || now < round.start_time || now
                    > round.end_time || amount < round.min_tip_amount {
                    0
                } else {
                    let raw = crate::num::tdiv(amount as int, MIN_TIP_FOR_ENTRY as int);
                    let held = if l.entries@.contains_key(pair(rid, tipper)) {
                        l.entries@[pair(rid, tipper)].entry_count
                    } else {
                        0
                    };
                    let room = if held >= MAX_ENTRIES_PER_TIPPER {
                        0
                    } else {
                        (MAX_ENTRIES_PER_TIPPER - held) as u32
                    };
                    if raw < room { raw as u32 } else { room }
                }
            },
        }
    }
}

/// The prizes of positions 0..10 for a pool and a winner count.
pub open spec fn prize_table(pool: int, winner_count: int) -> Seq<i128> {
    Seq::new(10, |j: int| prize_spec(pool, winner_count, j) as i128)
}

fn prizes_for(prize_pool: i128, winner_count: u32) -> (r: [i128; 10])
    requires
        prizes_defined(prize_pool as int, winner_count as int),
    ensures
        r@ == prize_table(prize_pool as int, winner_count as int),
{
    let r = calculate_prize_amounts(prize_pool, winner_count);
    assert(r@ =~= prize_table(prize_pool as int, winner_count as int));
    r
}

/// Each of `ws` paired with `round_id`.
pub open spec fn tag_round(round_id: u64, ws: Seq<u64>) -> Seq<(u64, u64)> {
    ws.map_values(|w: u64| (round_id, w))
}

/// Winner records for `ws` drawn in `round_id`, positions from 1, with the
/// prizes of `prizes` (zero past the tenth position), none claimed.
pub open spec fn winner_records(round_id: u64, ws: Seq<u64>, prizes: Seq<i128>) -> Seq<LotteryWinner> {
    Seq::new(
        ws.len(),
        |i: int|
            LotteryWinner {
                round_id,
                winner: ws[i],
                prize_amount: prize_at(prizes, i),
                position: (i + 1) as u32,
                claimed_at: None,
            },
    )
}

/// `table` holds `ws[i]` under `pair(round_id, i + 1)` for each position.
pub open spec fn winners_stored(table: Map<u128, LotteryWinner>, round_id: u64, ws: Seq<LotteryWinner>) -> bool {
    forall|i: int| 0 <= i < ws.len() ==> table.contains_key(#[trigger] pair(round_id, (i + 1) as u64))
        && table[pair(round_id, (i + 1) as u64)] == ws[i]
}

/// The prize at 0-based position `pos` of a draw with `prizes` per position.
pub open spec fn prize_at(prizes: Seq<i128>, pos: int) -> i128 {
    if pos < 10 { prizes[pos] } else { 0 }
}

impl Lottery {
    /// A lottery with no rounds.
    pub fn new(contract: u64, admin: Option<u64>) -> (l: Lottery)
        ensures
            l.contract == contract,
            l.admin == admin,
            l.active_round is None,
            l.rounds@ == Map::<u128, LotteryRound>::empty(),
            l.entries@ == Map::<u128, LotteryEntry>::empty(),
            l.round_tippers@.len() == 0,
            l.winners@ == Map::<u128, LotteryWinner>::empty(),
            l.round_winners@.len() == 0,
            l.events@.len() == 0,
    {
        Lottery {
            contract,
            admin,
            active_round: None,
            rounds: Table::new(),
            entries: Table::new(),
            round_tippers: Vec::new(),
            winners: Table::new(),
            round_winners: Vec::new(),
            events: Vec::new(),
        }
    }

    /// Records the entries a tip earns and returns how many (0 when it
    /// earns none).
    pub fn record_tip_entry(&mut self, now: u64, tipper: u64, tip_amount: i128) -> (r: u32)
        requires
            old(self).active_round matches Some(rid) ==> {
                &&& old(self).rounds@.contains_key(rid as u128) ==> old(self).rounds@[rid as u128].total_entries + MAX_ENTRIES_PER_TIPPER <= u64::MAX
                &&& old(self).entries@.contains_key(pair(rid, tipper)) ==> old(self).entries@[pair(rid, tipper)].total_tipped + tip_amount <= i128::MAX
            },
        ensures
            r == entries_earned(old(self), now, tipper, tip_amount),
            r == 0 ==> *final(self) == *old(self),
            r > 0 ==> ({
                let rid = old(self).active_round.unwrap();
                let round = old(self).rounds@[rid as u128];
                let had = old(self).entries@.contains_key(pair(rid, tipper));
                let e = if had {
                    old(self).entries@[pair(rid, tipper)]
                } else {
                    LotteryEntry {
                        round_id: rid,
                        tipper,
                        entry_count: 0,
                        total_tipped: 0,
                        first_entry_at: now,
                        last_entry_at: now,
                    }
                };
                &&& final(self).entries@ == old(self).entries@.insert(
                    pair(rid, tipper),
                    LotteryEntry {
                        entry_count: (e.entry_count + r) as u32,
                        total_tipped: (e.total_tipped + tip_amount) as i128,
                        last_entry_at: now,
                        ..e
                    },
                )
                &&& final(self).rounds@ == old(self).rounds@.insert(
                    rid as u128,
                    LotteryRound { total_entries: (round.total_entries + r) as u64, ..round },
                )
                &&& final(self).round_tippers@ == if old(self).round_tippers@.contains((rid, tipper)) {
                    old(self).round_tippers@
                } else {
                    old(self).round_tippers@.push((rid, tipper))
                }
                &&& final(self).winners@ == old(self).winners@
                &&& final(self).round_winners@ == old(self).round_winners@
                &&& final(self).active_round == old(self).active_round
                &&& final(self).admin == old(self).admin
                &&& final(self).contract == old(self).contract
                &&& final(self).events@ == old(self).events@.push(LotteryEvent::Entered {
                    tipper,
                    round_id: rid,
                    entries_added: r,
                    entry_count: (e.entry_count + r) as u32,
                })
            }),
    {
        if tip_amount < MIN_TIP_FOR_ENTRY {
            return 0;
        }
        let round_id = match self.active_round {
            Some(id) => id,
            None => {
                return 0;
            },
        };
        let round = match self.rounds.get(round_id as u128) {
            Some(r) => r,
            None => {
                return 0;
            },
        };
        if round.status != LotteryStatus::Open {
            return 0;
        }
        if now < round.start_time || now > round.end_time {
            return 0;
        }
        if tip_amount < round.min_tip_amount {
            return 0;
        }
        let raw_entries = crate::num::div_i128(tip_amount, MIN_TIP_FOR_ENTRY);
        let k = pair_key(round_id, tipper);
        let entry = match self.entries.get(k) {
            Some(e) => e,
            None => LotteryEntry {
                round_id,
                tipper,
                entry_count: 0,
                total_tipped: 0,
                first_entry_at: now,
                last_entry_at: now,
            },
        };
        let remaining_capacity = MAX_ENTRIES_PER_TIPPER.saturating_sub(entry.entry_count);
        let entries_to_add = if raw_entries < remaining_capacity as i128 {
            raw_entries as u32
        } else {
            remaining_capacity
        };
        if entries_to_add == 0 {
            return 0;
        }
        let updated = LotteryEntry {
            entry_count: entry.entry_count + entries_to_add,
            total_tipped: entry.total_tipped + tip_amount,
            last_entry_at: now,
            ..entry
        };
        self.entries.set(k, updated);
        if !self.tipper_listed(round_id, tipper) {
            self.round_tippers.push((round_id, tipper));
        }
        self.rounds.set(
            round_id as u128,
            LotteryRound { total_entries: round.total_entries + entries_to_add as u64, ..round },
        );
        self.events.push(LotteryEvent::Entered {
            tipper,
            round_id,
            entries_added: entries_to_add,
            entry_count: updated.entry_count,
        });
        entries_to_add
    }

    fn tipper_listed(&self, round_id: u64, tipper: u64) -> (r: bool)
        ensures
            r == self.round_tippers@.contains((round_id, tipper)),
    {
        let mut i: usize = 0;
        while i < self.round_tippers.len()
            invariant
                0 <= i <= self.round_tippers@.len(),
                forall|j: int| 0 <= j < i ==> self.round_tippers@[j] != (round_id, tipper),
            decreases self.round_tippers@.len() - i,
        {
            let (rd, t) = self.round_tippers[i];
            if rd == round_id && t == tipper {
                return true;
            }
            i = i + 1;
        }
        false
    }

    /// Why `admin` may not act as admin, if it may not.
    pub open spec fn admin_error(&self, admin: u64) -> Option<LotteryError> {
        if self.admin == Some(admin) { None } else { Some(LotteryError::Unauthorized) }
    }

    fn require_admin(&self, admin: u64) -> (r: Result<(), LotteryError>)
        ensures
            r is Ok <==> self.admin == Some(admin),
            r matches Err(e) ==> e == LotteryError::Unauthorized,
    {
        match self.admin {
            Some(a) => if a == admin { Ok(()) } else { Err(LotteryError::Unauthorized) },
            None => Err(LotteryError::Unauthorized),
        }
    }

    /// The error `draw_winners` fails with, in the contract's order.
    pub open spec fn draw_error(&self, now: u64, admin: u64, round_id: u64) -> Option<LotteryError> {
        if self.admin != Some(admin) {
            Some(LotteryError::Unauthorized)
        } else if !self.rounds@.contains_key(round_id as u128) {
            Some(LotteryError::LotteryRoundNotFound)
        } else if self.rounds@[round_id as u128].status != LotteryStatus::Open {
            Some(LotteryError::LotteryRoundNotOpen)
        } else if now <= self.rounds@[round_id as u128].end_time {
            Some(LotteryError::LotteryRoundNotEnded)
        } else if self.rounds@[round_id as u128].total_entries == 0 || self.round_tickets(round_id).len() == 0 {
            Some(LotteryError::LotteryRoundNoEntries)
        } else {
            None
        }
    }

    /// The tickets of `round_id` as the draw builds them.
    #[verifier::opaque]
    pub open spec fn round_tickets(&self, round_id: u64) -> Seq<u64> {
        tickets_of(members_of(self.round_tippers@, round_id), self.entries@, round_id)
    }

    /// How many winners a draw of `round_id` selects: the round's winner
    /// count, but no more than there are tippers.
    pub open spec fn draw_count(&self, round_id: u64) -> u32 {
        let n = members_of(self.round_tippers@, round_id).len() as u32;
        let w = self.rounds@[round_id as u128].winner_count;
        if w < n { w } else { n }
    }

    /// The winners a draw at `sequence`/`now` selects, in drawing order.
    #[verifier::opaque]
    pub open spec fn drawn(&self, sequence: u32, now: u64, round_id: u64) -> Seq<u64> {
        let c = self.draw_count(round_id);
        select_from(
            self.round_tickets(round_id),
            c as nat,
            max_attempts_spec(c) as nat,
            seed_spec(sequence, now, round_id),
            0,
            Seq::empty(),
            Seq::empty(),
        )
    }

    /// Closes `round_id` and draws its winners. A round without entries is
    /// refused and left as it is. Admin only, after the round's end.
    #[verifier::rlimit(100)]
    pub fn draw_winners(&mut self, sequence: u32, now: u64, admin: u64, round_id: u64) -> (r:
        Result<Vec<LotteryWinner>, LotteryError>)
        requires
            old(self).draw_error(now, admin, round_id) is None ==> prizes_defined(
                old(self).rounds@[round_id as u128].prize_pool as int,
                old(self).draw_count(round_id) as int,
            ),
            old(self).round_tickets(round_id).len() <= u64::MAX,
        ensures
            r is Err <==> old(self).draw_error(now, admin, round_id) is Some,
            r matches Err(e) ==> Some(e) == old(self).draw_error(now, admin, round_id) && *final(self) == *old(self),
            r matches Ok(ws) ==> ({
                let round = old(self).rounds@[round_id as u128];
                let drawn = old(self).drawn(sequence, now, round_id);
                let c = old(self).draw_count(round_id);
                &&& final(self).active_round is None
                &&& final(self).admin == old(self).admin
                &&& final(self).contract == old(self).contract
                &&& final(self).entries@ == old(self).entries@
                &&& final(self).round_tippers@ == old(self).round_tippers@
                &&& {
                    &&& final(self).rounds@ == old(self).rounds@.insert(
                        round_id as u128,
                        LotteryRound {
                            status: LotteryStatus::Completed,
                            drawn_at: Some(now),
                            ..round
                        },
                    )
                    &&& ws@ == winner_records(round_id, drawn, prize_table(round.prize_pool as int, c as int))
                    &&& winners_stored(final(self).winners@, round_id, ws@)
                    &&& final(self).round_winners@ == old(self).round_winners@ + tag_round(round_id, drawn)
                    &&& final(self).events@ == old(self).events@.push(
                        LotteryEvent::Drawn { round_id, winner_count: c, prize_pool: round.prize_pool },
                    )
                }
            }),
    {
        self.require_admin(admin)?;
        let round = match self.rounds.get(round_id as u128) {
            Some(r) => r,
            None => {
                return Err(LotteryError::LotteryRoundNotFound);
            },
        };
        if round.status != LotteryStatus::Open {
            return Err(LotteryError::LotteryRoundNotOpen);
        }
        if now <= round.end_time {
            return Err(LotteryError::LotteryRoundNotEnded);
        }
        if round.total_entries == 0 {
            return Err(LotteryError::LotteryRoundNoEntries);
        }
        let tippers = collect_members(&self.round_tippers, round_id);
        let tickets = self.build_tickets(&tippers, round_id);
        proof {
            reveal(Lottery::round_tickets);
        }
        if tickets.len() == 0 {
            return Err(LotteryError::LotteryRoundNoEntries);
        }
        let winners = self.complete_draw(sequence, now, round_id, round, &tippers, &tickets);
        Ok(winners)
    }

    /// The error `claim_prize` fails with, in the contract's order.
    pub open spec fn claim_error(&self, winner: u64, round_id: u64, position: u32) -> Option<LotteryError> {
        let k = pair(round_id, position as u64);
        if !self.rounds@.contains_key(round_id as u128) {
            Some(LotteryError::LotteryRoundNotFound)
        } else if self.rounds@[round_id as u128].status != LotteryStatus::Completed {
            Some(LotteryError::LotteryRoundNotCompleted)
        } else if !self.winners@.contains_key(k) {
            Some(LotteryError::LotteryWinnerNotFound)
        } else if self.winners@[k].winner != winner {
            Some(LotteryError::Unauthorized)
        } else if self.winners@[k].claimed_at is Some {
            Some(LotteryError::LotteryPrizeAlreadyClaimed)
        } else if self.winners@[k].prize_amount <= 0 {
            Some(LotteryError::NothingToWithdraw)
        } else {
            None
        }
    }

    /// Pays `winner` the prize at `position` of a completed round and marks
    /// it claimed.
    pub fn claim_prize(&mut self, now: u64, winner: u64, round_id: u64, position: u32) -> (r: Result<
        Transfer,
        LotteryError,
    >)
        ensures
            r is Err <==> old(self).claim_error(winner, round_id, position) is Some,
            r matches Err(e) ==> Some(e) == old(self).claim_error(winner, round_id, position) && *final(self) == *old(self),
            r matches Ok(t) ==> ({
                let k = pair(round_id, position as u64);
                let w = old(self).winners@[k];
                &&& t == Transfer {
                    token: old(self).rounds@[round_id as u128].prize_token,
                    from: old(self).contract,
                    to: winner,
                    amount: w.prize_amount,
                }
                &&& final(self).winners@ == old(self).winners@.insert(k, LotteryWinner { claimed_at: Some(now), ..w })
                &&& final(self).events@ == old(self).events@.push(
                    LotteryEvent::Claimed { winner, round_id, position, prize: w.prize_amount },
                )
                &&& final(self).rounds@ == old(self).rounds@
                &&& final(self).entries@ == old(self).entries@
                &&& final(self).round_tippers@ == old(self).round_tippers@
                &&& final(self).round_winners@ == old(self).round_winners@
                &&& final(self).active_round == old(self).active_round
                &&& final(self).admin == old(self).admin
                &&& final(self).contract == old(self).contract
            }),
    {
        let round = match self.rounds.get(round_id as u128) {
            Some(r) => r,
            None => {
                return Err(LotteryError::LotteryRoundNotFound);
            },
        };
        if round.status != LotteryStatus::Completed {
            return Err(LotteryError::LotteryRoundNotCompleted);
        }
        let k = pair_key(round_id, position as u64);
        let record = match self.winners.get(k) {
            Some(w) => w,
            None => {
                return Err(LotteryError::LotteryWinnerNotFound);
            },
        };
        if record.winner != winner {
            return Err(LotteryError::Unauthorized);
        }
        if record.claimed_at.is_some() {
            return Err(LotteryError::LotteryPrizeAlreadyClaimed);
        }
        if record.prize_amount <= 0 {
            return Err(LotteryError::NothingToWithdraw);
        }
        self.winners.set(k, LotteryWinner { claimed_at: Some(now), ..record });
        self.events.push(LotteryEvent::Claimed { winner, round_id, position, prize: record.prize_amount });
        Ok(Transfer {
            token: round.prize_token,
            from: self.contract,
            to: winner,
            amount: record.prize_amount,
        })
    }

    /// The unclaimed positive prizes of positions `1..=upto` of `round_id`.
    pub open spec fn unclaimed_total(&self, round_id: u64, upto: nat) -> int
        decreases upto,
    {
        if upto == 0 {
            0
        } else {
            let k = pair(round_id, upto as u64);
            let rest = self.unclaimed_total(round_id, (upto - 1) as nat);
            if self.winners@.contains_key(k) && self.winners@[k].claimed_at is None
                && self.winners@[k].prize_amount > 0 {
                rest + self.winners@[k].prize_amount
            } else {
                rest
            }
        }
    }

    /// True if position `p` of `round_id` holds an unclaimed positive prize.
    pub open spec fn reclaimable(&self, round_id: u64, p: u64) -> bool {
        self.winners@.contains_key(pair(round_id, p)) && self.winners@[pair(round_id, p)].claimed_at is None
            && self.winners@[pair(round_id, p)].prize_amount > 0
    }

    /// Marks every unclaimed prize of a completed round as claimed at `now`
    /// and returns their total, paid back to the admin (when positive).
    /// Admin only.
    pub fn reclaim_unclaimed_prizes(&mut self, now: u64, admin: u64, round_id: u64) -> (r: Result<
        (i128, Option<Transfer>),
        LotteryError,
    >)
        requires
            old(self).rounds@.contains_key(round_id as u128) ==> old(self).unclaimed_total(
                round_id,
                old(self).rounds@[round_id as u128].winner_count as nat,
            ) <= i128::MAX,
        ensures
            r is Err <==> old(self).admin != Some(admin) || !old(self).rounds@.contains_key(round_id as u128)
                || old(self).rounds@[round_id as u128].status != LotteryStatus::Completed,
            r matches Err(e) ==> *final(self) == *old(self) && (e == LotteryError::Unauthorized && old(self).admin
                != Some(admin) || e == LotteryError::LotteryRoundNotFound && old(self).admin == Some(admin)
                && !old(self).rounds@.contains_key(round_id as u128) || e == LotteryError::LotteryRoundNotCompleted
                && old(self).admin == Some(admin) && old(self).rounds@.contains_key(round_id as u128)),
            r matches Ok((total, t)) ==> ({
                let round = old(self).rounds@[round_id as u128];
                &&& total == old(self).unclaimed_total(round_id, round.winner_count as nat)
                &&& t == if total > 0 {
                    Some(Transfer { token: round.prize_token, from: old(self).contract, to: admin, amount: total })
                } else {
                    None::<Transfer>
                }
                &&& forall|p: u64| 1 <= p <= round.winner_count ==> #[trigger] final(self).winners@.contains_key(pair(round_id, p))
                    == old(self).winners@.contains_key(pair(round_id, p))
                &&& forall|p: u64| 1 <= p <= round.winner_count && old(self).reclaimable(round_id, p) ==> #[trigger] final(self).winners@[pair(round_id, p)]
                    == (LotteryWinner { claimed_at: Some(now), ..old(self).winners@[pair(round_id, p)] })
                &&& forall|p: u64| 1 <= p <= round.winner_count && !old(self).reclaimable(round_id, p) ==> #[trigger] final(self).winners@[pair(round_id, p)]
                    == old(self).winners@[pair(round_id, p)]
                &&& final(self).events@ == if total > 0 {
                    old(self).events@.push(LotteryEvent::Reclaimed { admin, round_id, total })
                } else {
                    old(self).events@
                }
                &&& final(self).rounds@ == old(self).rounds@
                &&& final(self).entries@ == old(self).entries@
                &&& final(self).round_tippers@ == old(self).round_tippers@
                &&& final(self).round_winners@ == old(self).round_winners@
                &&& final(self).active_round == old(self).active_round
                &&& final(self).admin == old(self).admin
                &&& final(self).contract == old(self).contract
            }),
    {
        self.require_admin(admin)?;
        let round = match self.rounds.get(round_id as u128) {
            Some(r) => r,
            None => {
                return Err(LotteryError::LotteryRoundNotFound);
            },
        };
        if round.status != LotteryStatus::Completed {
            return Err(LotteryError::LotteryRoundNotCompleted);
        }
        let ghost s0 = *old(self);
        let mut total: i128 = 0;
        let mut position: u64 = 1;
        while position <= round.winner_count as u64
            invariant
                1 <= position,
                position <= round.winner_count + 1,
                round == s0.rounds@[round_id as u128],
                s0.unclaimed_total(round_id, round.winner_count as nat) <= i128::MAX,
                total == s0.unclaimed_total(round_id, (position - 1) as nat),
                self.rounds@ == s0.rounds@,
                self.entries@ == s0.entries@,
                self.round_tippers@ == s0.round_tippers@,
                self.round_winners@ == s0.round_winners@,
                self.events@ == s0.events@,
                self.active_round == s0.active_round,
                self.admin == s0.admin,
                self.contract == s0.contract,
                forall|p: u64| #[trigger] self.winners@.contains_key(pair(round_id, p)) == s0.winners@.contains_key(pair(round_id, p)),
                forall|p: u64| 1 <= p < position && s0.reclaimable(round_id, p) ==> #[trigger] self.winners@[pair(round_id, p)]
                    == (LotteryWinner { claimed_at: Some(now), ..s0.winners@[pair(round_id, p)] }),
                forall|p: u64| !(1 <= p < position && s0.reclaimable(round_id, p)) ==> #[trigger] self.winners@[pair(round_id, p)]
                    == s0.winners@[pair(round_id, p)],
            decreases round.winner_count + 1 - position,
        {
            proof {
                lemma_unclaimed_monotone(s0, round_id, position as nat, round.winner_count as nat);
            }
            let k = pair_key(round_id, position);
            match self.winners.get(k) {
                Some(record) => {
                    if record.claimed_at.is_none() && record.prize_amount > 0 {
                        total = total + record.prize_amount;
                        self.winners.set(k, LotteryWinner { claimed_at: Some(now), ..record });
                    }
                },
                None => {},
            }
            proof {
                assert forall|p: u64| #[trigger] self.winners@.contains_key(pair(round_id, p)) == s0.winners@.contains_key(pair(round_id, p)) by {
                    crate::table::lemma_pair_injective(round_id, p, round_id, position);
                }
                assert forall|p: u64| 1 <= p < position + 1 && s0.reclaimable(round_id, p) implies #[trigger] self.winners@[pair(round_id, p)]
                    == (LotteryWinner { claimed_at: Some(now), ..s0.winners@[pair(round_id, p)] }) by {
                    crate::table::lemma_pair_injective(round_id, p, round_id, position);
                }
                assert forall|p: u64| !(1 <= p < position + 1 && s0.reclaimable(round_id, p)) implies #[trigger] self.winners@[pair(round_id, p)]
                    == s0.winners@[pair(round_id, p)] by {
                    crate::table::lemma_pair_injective(round_id, p, round_id, position);
                }
            }
            position = position + 1;
        }
        if total > 0 {
            self.events.push(LotteryEvent::Reclaimed { admin, round_id, total });
            Ok((total, Some(Transfer { token: round.prize_token, from: self.contract, to: admin, amount: total })))
        } else {
            Ok((total, None))
        }
    }

    /// The addresses that won `round_id`, in drawing order.
    pub fn get_round_winners(&self, round_id: u64) -> (r: Vec<u64>)
        ensures
            r@ == members_of(self.round_winners@, round_id),
    {
        collect_members(&self.round_winners, round_id)
    }

    /// The winner record at `position` (from 1) of `round_id`.
    pub fn get_winner(&self, round_id: u64, position: u32) -> (r: Option<LotteryWinner>)
        ensures
            r == (if self.winners@.contains_key(pair(round_id, position as u64)) {
                Some(self.winners@[pair(round_id, position as u64)])
            } else {
                None::<LotteryWinner>
            }),
    {
        self.winners.get(pair_key(round_id, position as u64))
    }

    /// The entry of `tipper` in `round_id`.
    pub fn get_entry(&self, round_id: u64, tipper: u64) -> (r: Option<LotteryEntry>)
        ensures
            r == (if self.entries@.contains_key(pair(round_id, tipper)) {
                Some(self.entries@[pair(round_id, tipper)])
            } else {
                None::<LotteryEntry>
            }),
    {
        self.entries.get(pair_key(round_id, tipper))
    }

    /// The tippers of `round_id`, in the order they first entered.
    pub fn get_round_tippers(&self, round_id: u64) -> (r: Vec<u64>)
        ensures
            r@ == members_of(self.round_tippers@, round_id),
    {
        collect_members(&self.round_tippers, round_id)
    }

    /// The active round, if any.
    pub fn get_active_round_id(&self) -> (r: Option<u64>)
        ensures
            r == self.active_round,
    {
        self.active_round
    }

    fn complete_draw(
        &mut self,
        sequence: u32,
        now: u64,
        round_id: u64,
        round: LotteryRound,
        tippers: &Vec<u64>,
        tickets: &Vec<u64>,
    ) -> (winners: Vec<LotteryWinner>)
        requires
            old(self).rounds@.contains_key(round_id as u128),
            round == old(self).rounds@[round_id as u128],
            prizes_defined(round.prize_pool as int, old(self).draw_count(round_id) as int),
            tippers@ == members_of(old(self).round_tippers@, round_id),
            tickets@ == old(self).round_tickets(round_id),
            tickets@.len() <= u64::MAX,
        ensures
            ({
                let drawn = old(self).drawn(sequence, now, round_id);
                let c = old(self).draw_count(round_id);
                &&& final(self).active_round is None
                &&& final(self).admin == old(self).admin
                &&& final(self).contract == old(self).contract
                &&& final(self).entries@ == old(self).entries@
                &&& final(self).round_tippers@ == old(self).round_tippers@
                &&& final(self).rounds@ == old(self).rounds@.insert(
                    round_id as u128,
                    LotteryRound { status: LotteryStatus::Completed, drawn_at: Some(now), ..round },
                )
                &&& winners@ == winner_records(round_id, drawn, prize_table(round.prize_pool as int, c as int))
                &&& winners_stored(final(self).winners@, round_id, winners@)
                &&& final(self).round_winners@ == old(self).round_winners@ + tag_round(round_id, drawn)
                &&& final(self).events@ == old(self).events@.push(
                    LotteryEvent::Drawn { round_id, winner_count: c, prize_pool: round.prize_pool },
                )
            }),
    {
        let n_tippers = tippers.len() as u32;
        let winner_count = if round.winner_count < n_tippers {
            round.winner_count
        } else {
            n_tippers
        };
        let prizes = prizes_for(round.prize_pool, winner_count);
        let seed = derive_seed(sequence, now, round_id);
        let selected = select_without_replacement(&tickets, winner_count, seed);
        proof {
            assert(winner_count == old(self).draw_count(round_id));
            reveal(Lottery::drawn);
            assert(selected@ == old(self).drawn(sequence, now, round_id));
        }
        let ghost pz = prize_table(round.prize_pool as int, winner_count as int);
        let winners = self.record_winners(round_id, &selected, &prizes, Ghost(pz));
        self.rounds.set(
            round_id as u128,
            LotteryRound { status: LotteryStatus::Completed, drawn_at: Some(now), ..round },
        );
        self.active_round = None;
        self.events.push(LotteryEvent::Drawn { round_id, winner_count, prize_pool: round.prize_pool });
        winners
    }

    fn record_winners(
        &mut self,
        round_id: u64,
        selected: &Vec<u64>,
        prizes: &[i128; 10],
        pz: Ghost<Seq<i128>>,
    ) -> (winners: Vec<LotteryWinner>)
        requires
            prizes@ == pz@,
            selected@.len() <= u32::MAX,
        ensures
            winners@ == winner_records(round_id, selected@, pz@),
            winners_stored(final(self).winners@, round_id, winners@),
            final(self).round_winners@ == old(self).round_winners@ + tag_round(round_id, selected@),
            final(self).rounds@ == old(self).rounds@,
            final(self).entries@ == old(self).entries@,
            final(self).round_tippers@ == old(self).round_tippers@,
            final(self).active_round == old(self).active_round,
            final(self).admin == old(self).admin,
            final(self).contract == old(self).contract,
            final(self).events@ == old(self).events@,
    {
        let ghost pz = pz@;
        let mut winners: Vec<LotteryWinner> = Vec::new();
        let ghost old_log = self.round_winners@;
        let mut pos: usize = 0;
        while pos < selected.len()
            invariant
                0 <= pos <= selected@.len(),
                selected@.len() <= u32::MAX,
                prizes@ == pz,
                winners@.len() == pos,
                forall|i: int| 0 <= i < pos ==> #[trigger] winners@[i] == (LotteryWinner {
                    round_id,
                    winner: selected@[i],
                    prize_amount: prize_at(pz, i),
                    position: (i + 1) as u32,
                    claimed_at: None,
                }),
                forall|i: int| 0 <= i < pos ==> self.winners@.contains_key(#[trigger] pair(round_id, (i + 1) as u64))
                    && self.winners@[pair(round_id, (i + 1) as u64)] == winners@[i],
                self.round_winners@ == old_log + tag_round(round_id, selected@.take(pos as int)),
                self.rounds@ == old(self).rounds@,
                self.entries@ == old(self).entries@,
                self.round_tippers@ == old(self).round_tippers@,
                self.active_round == old(self).active_round,
                self.admin == old(self).admin,
                self.contract == old(self).contract,
                self.events@ == old(self).events@,
            decreases selected@.len() - pos,
        {
            let prize = if pos < 10 { prizes[pos] } else { 0 };
            let w = LotteryWinner {
                round_id,
                winner: selected[pos],
                prize_amount: prize,
                position: pos as u32 + 1,
                claimed_at: None,
            };
            let ghost before = self.winners@;
            let ghost before_ws = winners@;
            self.winners.set(pair_key(round_id, pos as u64 + 1), w);
            self.round_winners.push((round_id, selected[pos]));
            proof {
                assert(selected@.take(pos + 1) == selected@.take(pos as int).push(selected@[pos as int]));
                assert(tag_round(round_id, selected@.take(pos + 1)) == tag_round(round_id, selected@.take(pos as int)).push((round_id, selected@[pos as int])));
            }
            winners.push(w);
            proof {
                assert forall|i: int| 0 <= i < pos + 1 implies self.winners@.contains_key(#[trigger] pair(round_id, (i + 1) as u64))
                    && self.winners@[pair(round_id, (i + 1) as u64)] == winners@[i] by {
                    crate::table::lemma_pair_injective(round_id, (i + 1) as u64, round_id, (pos + 1) as u64);
                    if i < pos {
                        assert(before.contains_key(pair(round_id, (i + 1) as u64)));
                        assert(winners@[i] == before_ws[i]);
                    }
                }
            }
            pos = pos + 1;
        }
        proof {
            assert(selected@.take(selected@.len() as int) == selected@);
            assert(winners@ =~= winner_records(round_id, selected@, pz));
        }
        winners
    }

    fn build_tickets(&self, tippers: &Vec<u64>, round_id: u64) -> (r: Vec<u64>)
        ensures
            r@ == tickets_of(tippers@, self.entries@, round_id),
    {
        proof {
            reveal_with_fuel(tickets_of, 1);
        }
        let mut tickets: Vec<u64> = Vec::new();
        let mut i: usize = 0;
        while i < tippers.len()
            invariant
                0 <= i <= tippers@.len(),
                tickets@ == tickets_of(tippers@.take(i as int), self.entries@, round_id),
            decreases tippers@.len() - i,
        {
            let t = tippers[i];
            proof {
                reveal_with_fuel(tickets_of, 1);
                assert(tippers@.take(i + 1).drop_last() == tippers@.take(i as int));
            }
            match self.entries.get(pair_key(round_id, t)) {
                Some(entry) => {
                    let ghost base = tickets@;
                    let mut j: u32 = 0;
                    while j < entry.entry_count
                        invariant
                            0 <= j <= entry.entry_count,
                            tickets@ == base + Seq::new(j as nat, |_k: int| t),
                        decreases entry.entry_count - j,
                    {
                        tickets.push(t);
                        proof {
                            assert(base + Seq::new((j + 1) as nat, |_k: int| t) == (base + Seq::new(j as nat, |_k: int| t)).push(t));
                        }
                        j = j + 1;
                    }
                },
                None => {},
            }
            i = i + 1;
        }
        proof {
            assert(tippers@.take(tippers@.len() as int) == tippers@);
        }
        tickets
    }
}

/// The running total of unclaimed prizes only grows with the positions
/// covered.
proof fn lemma_unclaimed_monotone(l: Lottery, round_id: u64, a: nat, b: nat)
    requires
        a <= b,
    ensures
        l.unclaimed_total(round_id, a) <= l.unclaimed_total(round_id, b),
    decreases b - a,
{
    if a < b {
        lemma_unclaimed_monotone(l, round_id, a, (b - 1) as nat);
    }
}


/// Which tips earn entries, and how many. A tip earns entries only when it
/// is at least 10 000 000 and at least the active round's own minimum, in an
/// open round and within its window; it then earns one entry per 10 000 000
/// tipped, capped so that the tipper holds no more than 100 in the round. A
/// tip below the round's minimum earns nothing.
pub proof fn law_entries_earned(l: &Lottery, now: u64, tipper: u64, amount: i128)
    ensures
        ({
            let r = entries_earned(l, now, tipper, amount);
            &&& r > 0 ==> amount >= 10_000_000 && l.active_round is Some
                && l.rounds@.contains_key(l.active_round.unwrap() as u128)
                && l.rounds@[l.active_round.unwrap() as u128].status == LotteryStatus::Open
                && l.rounds@[l.active_round.unwrap() as u128].start_time <= now
                && now <= l.rounds@[l.active_round.unwrap() as u128].end_time
                && amount >= l.rounds@[l.active_round.unwrap() as u128].min_tip_amount
            &&& (l.active_round matches Some(rid) && l.rounds@.contains_key(rid as u128) && amount
                < l.rounds@[rid as u128].min_tip_amount) ==> r == 0
            &&& (l.active_round matches Some(rid) && l.rounds@.contains_key(rid as u128)) ==> {
                let rid = l.active_round.unwrap();
                let round = l.rounds@[rid as u128];
                let held: int = if l.entries@.contains_key(pair(rid, tipper)) {
                    l.entries@[pair(rid, tipper)].entry_count as int
                } else {
                    0
                };
                &&& (amount >= 10_000_000 && amount >= round.min_tip_amount && round.status == LotteryStatus::Open
                    && round.start_time <= now <= round.end_time) ==> {
                    &&& r <= amount / 10_000_000
                    &&& held <= 100 ==> r + held <= 100
                    &&& (r == amount / 10_000_000 || (held <= 100 && r + held == 100) || (held > 100 && r == 0))
                }
            }
        }),
{
    let r = entries_earned(l, now, tipper, amount);
    if amount >= 10_000_000 {
        assert(crate::num::tdiv(amount as int, MIN_TIP_FOR_ENTRY as int) == amount / 10_000_000);
    }
}

} // verus!
