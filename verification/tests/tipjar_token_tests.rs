use std::collections::HashMap;

use tipjar::table::pair_key;
use tipjar::tipjar::{Effects, Error, TipJar, TipJarEvent, MAX_ALLOWED_TOKENS};

const CONTRACT: u64 = 1000;
const TOKEN: u64 = 7;
const ADMIN: u64 = 1;
const TEST_TIMELOCK: u32 = 1_000;

/// A jar together with the token balances of every address, moved by the
/// transfers each call hands back, as the token contract would move them.
struct World {
    jar: TipJar,
    ledger: u32,
    bank: HashMap<(u64, u64), i128>,
    next_id: u64,
}

impl World {
    fn new() -> World {
        let mut jar = TipJar::new(CONTRACT);
        jar.init(TOKEN, ADMIN, TEST_TIMELOCK).unwrap();
        World { jar, ledger: 0, bank: HashMap::new(), next_id: 100 }
    }

    fn generate(&mut self) -> u64 {
        self.next_id += 1;
        self.next_id
    }

    fn new_token(&mut self) -> u64 {
        self.generate()
    }

    fn mint(&mut self, token: u64, who: u64, amount: i128) {
        let b = self.balance_in(token, who);
        self.bank.insert((token, who), b + amount);
    }

    fn fund(&mut self, amount: i128) -> u64 {
        let who = self.generate();
        self.mint(TOKEN, who, amount);
        who
    }

    fn balance_in(&self, token: u64, who: u64) -> i128 {
        *self.bank.get(&(token, who)).unwrap_or(&0)
    }

    fn settle(&mut self, r: Result<Effects, Error>) -> Result<Effects, Error> {
        if let Ok(eff) = &r {
            for t in &eff.transfers {
                let from = self.balance_in(t.token, t.from);
                assert!(from >= t.amount, "transfer exceeds the holder's balance");
                self.bank.insert((t.token, t.from), from - t.amount);
                let to = self.balance_in(t.token, t.to);
                self.bank.insert((t.token, t.to), to + t.amount);
            }
        }
        r
    }

    fn tip(&mut self, sender: u64, creator: u64, token: u64, amount: i128) -> Result<Effects, Error> {
        let r = self.jar.tip(self.ledger, sender, creator, token, amount);
        self.settle(r)
    }

    fn withdraw(
        &mut self,
        caller: u64,
        creator: u64,
        token: u64,
        to: u64,
        amount: Option<i128>,
    ) -> Result<Effects, Error> {
        let r = self.jar.withdraw(self.ledger, caller, creator, token, to, amount);
        self.settle(r)
    }

    fn tip_legacy(&mut self, sender: u64, creator: u64, amount: i128) -> Result<Effects, Error> {
        let r = self.jar.tip_legacy(self.ledger, sender, creator, amount);
        self.settle(r)
    }

    fn withdraw_legacy(
        &mut self,
        caller: u64,
        creator: u64,
        to: u64,
        amount: Option<i128>,
    ) -> Result<Effects, Error> {
        let r = self.jar.withdraw_legacy(self.ledger, caller, creator, to, amount);
        self.settle(r)
    }

    /// Seeds balances written before multi-token support, with the tokens
    /// they stand for held in escrow.
    fn seed_v1_data(&mut self, creator: u64, balance: i128, total: i128) {
        self.mint(TOKEN, CONTRACT, balance);
        self.jar.legacy_balances.set(creator as u128, balance);
        self.jar.legacy_totals.set(creator as u128, total);
    }
}

// ── token allowlist ──────────────────────────────────────────────────────

#[test]
fn get_tokens_returns_init_token_then_grows_with_add_token() {
    let mut w = World::new();

    let tokens = w.jar.get_tokens().unwrap();
    assert_eq!(tokens.len(), 1);
    assert_eq!(tokens[0], TOKEN);

    let token_b = w.new_token();
    w.jar.add_token(ADMIN, token_b).unwrap();

    let tokens = w.jar.get_tokens().unwrap();
    assert_eq!(tokens.len(), 2);
    assert!(tokens.contains(&TOKEN));
    assert!(tokens.contains(&token_b));
}

#[test]
fn add_token_happy_path_new_token_becomes_tippable() {
    let mut w = World::new();
    let token_b = w.new_token();

    w.jar.add_token(ADMIN, token_b).unwrap();
    assert!(w.jar.get_tokens().unwrap().contains(&token_b));

    let tipper = w.generate();
    w.mint(token_b, tipper, 500);
    let creator = w.generate();
    w.tip(tipper, creator, token_b, 100).unwrap();
    assert_eq!(w.jar.get_balance(creator, token_b), 100);
}

#[test]
fn add_token_by_non_admin_panics_with_unauthorized() {
    let mut w = World::new();
    let stranger = w.generate();
    let token_b = w.new_token();
    assert_eq!(w.jar.add_token(stranger, token_b).unwrap_err(), Error::Unauthorized);
}

#[test]
fn add_token_duplicate_panics_with_token_already_exists() {
    let mut w = World::new();
    assert_eq!(w.jar.add_token(ADMIN, TOKEN).unwrap_err(), Error::TokenAlreadyExists);
}

#[test]
fn add_token_beyond_cap_panics_with_max_tokens_reached() {
    let mut w = World::new();
    for _ in 0..(MAX_ALLOWED_TOKENS - 1) {
        let t = w.new_token();
        w.jar.add_token(ADMIN, t).unwrap();
    }
    let extra = w.new_token();
    assert_eq!(w.jar.add_token(ADMIN, extra).unwrap_err(), Error::MaxTokensReached);
}

#[test]
fn remove_token_happy_path_removes_from_allowlist_but_balance_still_withdrawable() {
    let mut w = World::new();
    let token_b = w.new_token();
    w.jar.add_token(ADMIN, token_b).unwrap();

    let tipper = w.generate();
    w.mint(token_b, tipper, 1_000);
    let creator = w.generate();
    w.tip(tipper, creator, token_b, 200).unwrap();
    assert_eq!(w.jar.get_balance(creator, token_b), 200);

    w.jar.remove_token(ADMIN, token_b).unwrap();
    assert!(!w.jar.get_tokens().unwrap().contains(&token_b));

    assert_eq!(w.tip(tipper, creator, token_b, 50).unwrap_err(), Error::TokenNotAllowed);

    let before = w.balance_in(token_b, creator);
    w.withdraw(creator, creator, token_b, creator, None).unwrap();
    assert_eq!(w.balance_in(token_b, creator) - before, 200);
    assert_eq!(w.jar.get_balance(creator, token_b), 0);
}

#[test]
fn remove_token_by_non_admin_panics_with_unauthorized() {
    let mut w = World::new();
    let stranger = w.generate();
    assert_eq!(w.jar.remove_token(stranger, TOKEN).unwrap_err(), Error::Unauthorized);
}

#[test]
fn remove_token_not_in_list_panics_with_token_not_allowed() {
    let mut w = World::new();
    let absent = w.new_token();
    assert_eq!(w.jar.remove_token(ADMIN, absent).unwrap_err(), Error::TokenNotAllowed);
}

#[test]
fn cancel_upgrade_with_no_pending_proposal_panics_with_no_pending_upgrade() {
    let mut w = World::new();
    assert_eq!(w.jar.cancel_upgrade(ADMIN).unwrap_err(), Error::NoPendingUpgrade);
}

#[test]
fn set_guardian_by_non_admin_panics_with_unauthorized() {
    let mut w = World::new();
    let stranger = w.generate();
    let guardian = w.generate();
    assert_eq!(w.jar.set_guardian(stranger, guardian).unwrap_err(), Error::Unauthorized);
}

#[test]
fn set_guardian_pause_duration_by_non_admin_panics_with_unauthorized() {
    let mut w = World::new();
    let stranger = w.generate();
    assert_eq!(
        w.jar.set_guardian_pause_duration(stranger, 10_000).unwrap_err(),
        Error::Unauthorized
    );
}

#[test]
fn get_guardian_returns_none_before_set_and_address_after() {
    let mut w = World::new();
    assert_eq!(w.jar.get_guardian(), None);
    let guardian = w.generate();
    w.jar.set_guardian(ADMIN, guardian).unwrap();
    assert_eq!(w.jar.get_guardian(), Some(guardian));
}

#[test]
fn get_fee_collector_returns_none_before_set_fee_and_address_after() {
    let mut w = World::new();
    assert_eq!(w.jar.get_fee_collector(), None);
    let collector = w.generate();
    w.jar.set_fee(ADMIN, 100).unwrap();
    // setting the rate leaves the collector alone; it takes the two-step rotation
    assert_eq!(w.jar.get_fee_collector(), None);
    w.jar.propose_fee_collector(ADMIN, collector).unwrap();
    assert_eq!(w.jar.get_fee_collector(), None);
    w.jar.accept_fee_collector(collector).unwrap();
    assert_eq!(w.jar.get_fee_collector(), Some(collector));
}

// ── default-token entry points ───────────────────────────────────────────

#[test]
fn tip_legacy_happy_path_uses_primary_token() {
    let mut w = World::new();
    let sender = w.fund(1_000);
    let creator = w.generate();

    w.tip_legacy(sender, creator, 300).unwrap();

    assert_eq!(w.balance_in(TOKEN, sender), 700);
    assert_eq!(w.balance_in(TOKEN, CONTRACT), 300);

    assert_eq!(w.jar.get_total_tips(creator, TOKEN), 300);
    assert_eq!(w.jar.get_total_tips_legacy(creator), Ok(300));
    assert_eq!(w.jar.get_balance(creator, TOKEN), 300);
}

#[test]
fn tip_legacy_rejects_zero_and_negative_amounts() {
    let mut w = World::new();
    let sender = w.fund(1_000);
    let creator = w.generate();

    for bad in [0i128, -1i128] {
        assert_eq!(w.tip_legacy(sender, creator, bad).unwrap_err(), Error::InvalidAmount);
    }

    assert_eq!(w.balance_in(TOKEN, sender), 1_000);
    assert_eq!(w.jar.get_total_tips_legacy(creator), Ok(0));
}

#[test]
fn get_total_tips_legacy_is_zero_for_unknown_then_accumulates() {
    let mut w = World::new();
    let creator = w.generate();

    assert_eq!(w.jar.get_total_tips_legacy(creator), Ok(0));

    let sender = w.fund(1_000);
    w.tip_legacy(sender, creator, 100).unwrap();
    w.tip_legacy(sender, creator, 250).unwrap();

    assert_eq!(w.jar.get_total_tips_legacy(creator), Ok(350));
    assert_eq!(w.jar.get_total_tips(creator, TOKEN), 350);
}

#[test]
fn tip_and_tip_legacy_accumulate_into_the_same_bucket() {
    let mut w = World::new();
    let sender = w.fund(2_000);
    let creator = w.generate();

    w.tip(sender, creator, TOKEN, 400).unwrap();
    w.tip_legacy(sender, creator, 600).unwrap();

    assert_eq!(w.jar.get_total_tips(creator, TOKEN), 1_000);
    assert_eq!(w.jar.get_total_tips_legacy(creator), Ok(1_000));
    assert_eq!(w.jar.get_balance(creator, TOKEN), 1_000);
}

#[test]
fn withdraw_legacy_happy_path_pays_out_primary_token_balance() {
    let mut w = World::new();
    let sender = w.fund(1_000);
    let creator = w.generate();

    w.tip_legacy(sender, creator, 500).unwrap();
    w.withdraw_legacy(creator, creator, creator, None).unwrap();

    assert_eq!(w.balance_in(TOKEN, creator), 500);
    assert_eq!(w.jar.get_balance(creator, TOKEN), 0);
    assert_eq!(w.jar.get_total_tips_legacy(creator), Ok(500));
}

#[test]
fn withdraw_legacy_with_no_balance_returns_nothing_to_withdraw() {
    let mut w = World::new();
    let creator = w.generate();
    assert_eq!(
        w.withdraw_legacy(creator, creator, creator, None).unwrap_err(),
        Error::NothingToWithdraw
    );
}

#[test]
fn withdraw_legacy_partial_amount_leaves_remainder() {
    let mut w = World::new();
    let sender = w.fund(1_000);
    let creator = w.generate();

    w.tip_legacy(sender, creator, 800).unwrap();

    w.withdraw_legacy(creator, creator, creator, Some(300)).unwrap();
    assert_eq!(w.balance_in(TOKEN, creator), 300);
    assert_eq!(w.jar.get_balance(creator, TOKEN), 500);

    w.withdraw_legacy(creator, creator, creator, None).unwrap();
    assert_eq!(w.balance_in(TOKEN, creator), 800);
    assert_eq!(w.jar.get_balance(creator, TOKEN), 0);
}

// ── several tokens side by side ──────────────────────────────────────────

#[test]
fn test_multi_token_initialization() {
    let w = World::new();
    let tokens = w.jar.get_tokens().unwrap();
    assert_eq!(tokens.len(), 1);
    assert_eq!(tokens[0], TOKEN);
}

#[test]
fn test_add_and_remove_tokens() {
    let mut w = World::new();
    let token_b = w.new_token();

    w.jar.add_token(ADMIN, token_b).unwrap();
    let tokens = w.jar.get_tokens().unwrap();
    assert_eq!(tokens.len(), 2);
    assert!(tokens.contains(&TOKEN));
    assert!(tokens.contains(&token_b));

    w.jar.remove_token(ADMIN, token_b).unwrap();
    let tokens = w.jar.get_tokens().unwrap();
    assert_eq!(tokens.len(), 1);
    assert_eq!(tokens[0], TOKEN);
}

#[test]
fn test_multi_token_tip_and_balance_isolation() {
    let mut w = World::new();
    let token_b = w.new_token();
    let creator = w.generate();
    let tipper = w.generate();

    w.jar.add_token(ADMIN, token_b).unwrap();
    w.mint(TOKEN, tipper, 1000);
    w.mint(token_b, tipper, 2000);

    w.tip(tipper, creator, TOKEN, 100).unwrap();
    w.tip(tipper, creator, token_b, 300).unwrap();

    assert_eq!(w.jar.get_balance(creator, TOKEN), 100);
    assert_eq!(w.jar.get_balance(creator, token_b), 300);
    assert_eq!(w.jar.get_total_tips(creator, TOKEN), 100);
    assert_eq!(w.jar.get_total_tips(creator, token_b), 300);

    w.tip(tipper, creator, TOKEN, 50).unwrap();
    w.tip(tipper, creator, token_b, 200).unwrap();

    assert_eq!(w.jar.get_balance(creator, TOKEN), 150);
    assert_eq!(w.jar.get_balance(creator, token_b), 500);
    assert_eq!(w.jar.get_total_tips(creator, TOKEN), 150);
    assert_eq!(w.jar.get_total_tips(creator, token_b), 500);
}

#[test]
fn test_multi_token_withdrawal() {
    let mut w = World::new();
    let token_b = w.new_token();
    let creator = w.generate();
    let tipper = w.generate();

    w.jar.add_token(ADMIN, token_b).unwrap();
    w.mint(TOKEN, tipper, 1000);
    w.mint(token_b, tipper, 1000);
    w.tip(tipper, creator, TOKEN, 100).unwrap();
    w.tip(tipper, creator, token_b, 200).unwrap();

    let before_a = w.balance_in(TOKEN, creator);
    w.withdraw(creator, creator, TOKEN, creator, Some(50)).unwrap();
    assert_eq!(w.balance_in(TOKEN, creator) - before_a, 50);
    assert_eq!(w.jar.get_balance(creator, TOKEN), 50);
    assert_eq!(w.jar.get_balance(creator, token_b), 200);

    let before_b = w.balance_in(token_b, creator);
    w.withdraw(creator, creator, token_b, creator, None).unwrap();
    assert_eq!(w.balance_in(token_b, creator) - before_b, 200);
    assert_eq!(w.jar.get_balance(creator, TOKEN), 50);
    assert_eq!(w.jar.get_balance(creator, token_b), 0);
}

#[test]
fn test_token_not_allowed_error() {
    let mut w = World::new();
    let token_b = w.new_token();
    let creator = w.generate();
    let tipper = w.generate();
    w.mint(token_b, tipper, 1000);
    assert_eq!(w.tip(tipper, creator, token_b, 100).unwrap_err(), Error::TokenNotAllowed);
}

#[test]
fn test_token_already_exists_error() {
    let mut w = World::new();
    assert_eq!(w.jar.add_token(ADMIN, TOKEN).unwrap_err(), Error::TokenAlreadyExists);
}

#[test]
fn test_remove_nonexistent_token_error() {
    let mut w = World::new();
    let token_b = w.new_token();
    assert_eq!(w.jar.remove_token(ADMIN, token_b).unwrap_err(), Error::TokenNotAllowed);
}

#[test]
fn test_removed_token_withdrawal_still_works() {
    let mut w = World::new();
    let token_b = w.new_token();
    let creator = w.generate();
    let tipper = w.generate();

    w.jar.add_token(ADMIN, token_b).unwrap();
    w.mint(token_b, tipper, 1000);
    w.tip(tipper, creator, token_b, 100).unwrap();

    w.jar.remove_token(ADMIN, token_b).unwrap();

    let before = w.balance_in(token_b, creator);
    w.withdraw(creator, creator, token_b, creator, None).unwrap();
    assert_eq!(w.balance_in(token_b, creator) - before, 100);
    assert_eq!(w.jar.get_balance(creator, token_b), 0);

    assert_eq!(w.tip(tipper, creator, token_b, 50).unwrap_err(), Error::TokenNotAllowed);
}

#[test]
fn test_v1_to_v2_lazy_migration() {
    let mut w = World::new();
    let creator = w.generate();
    let tipper = w.generate();

    w.seed_v1_data(creator, 500, 1000);
    w.mint(TOKEN, tipper, 2000);

    assert_eq!(w.jar.get_balance(creator, TOKEN), 500);
    assert_eq!(w.jar.get_total_tips(creator, TOKEN), 1000);

    // The reads moved the data under the (creator, token) key.
    assert!(!w.jar.legacy_balances.has(creator as u128));
    assert!(!w.jar.legacy_totals.has(creator as u128));
    assert!(w.jar.balances.has(pair_key(creator, TOKEN)));
    assert!(w.jar.totals.has(pair_key(creator, TOKEN)));

    let tokens = w.jar.get_tokens().unwrap();
    assert_eq!(tokens.len(), 1);
    assert_eq!(tokens[0], TOKEN);

    w.tip(tipper, creator, TOKEN, 200).unwrap();
    assert_eq!(w.jar.get_balance(creator, TOKEN), 700);
    assert_eq!(w.jar.get_total_tips(creator, TOKEN), 1200);

    let before = w.balance_in(TOKEN, creator);
    w.withdraw(creator, creator, TOKEN, creator, Some(300)).unwrap();
    assert_eq!(w.balance_in(TOKEN, creator) - before, 300);
    assert_eq!(w.jar.get_balance(creator, TOKEN), 400);
}

#[test]
fn test_migration_preserves_zero_balances() {
    let mut w = World::new();
    let creator = w.generate();
    assert_eq!(w.jar.get_balance(creator, TOKEN), 0);
    assert_eq!(w.jar.get_total_tips(creator, TOKEN), 0);
    assert_eq!(w.jar.get_data_version(), 1);
}

#[test]
fn test_events_include_token_address() {
    let mut w = World::new();
    let creator = w.generate();
    let tipper = w.generate();
    w.mint(TOKEN, tipper, 1000);

    let tip = w.tip(tipper, creator, TOKEN, 100).unwrap();
    assert_eq!(
        *tip.events.last().unwrap(),
        TipJarEvent::Tip { creator, token: TOKEN, sender: tipper, amount: 100 }
    );

    let out = w.withdraw(creator, creator, TOKEN, creator, Some(50)).unwrap();
    assert_eq!(
        *out.events.last().unwrap(),
        TipJarEvent::Withdraw { creator, token: TOKEN, amount: 50, to: creator }
    );
}

#[test]
fn test_max_tokens_limit() {
    let mut w = World::new();
    for _ in 0..49 {
        let token = w.generate();
        w.jar.add_token(ADMIN, token).unwrap();
    }
    let extra_token = w.generate();
    assert_eq!(w.jar.add_token(ADMIN, extra_token).unwrap_err(), Error::MaxTokensReached);
}

#[test]
fn test_overflow_protection_per_token() {
    let mut w = World::new();
    let creator = w.generate();
    let tipper = w.generate();

    w.mint(TOKEN, tipper, i128::MAX);
    w.tip(tipper, creator, TOKEN, i128::MAX).unwrap();
    assert_eq!(w.jar.get_balance(creator, TOKEN), i128::MAX);

    w.mint(TOKEN, tipper, 1);
    assert_eq!(w.tip(tipper, creator, TOKEN, 1).unwrap_err(), Error::InvalidAmount);
}

#[test]
fn test_different_creators_independent_balances() {
    let mut w = World::new();
    let creator1 = w.generate();
    let creator2 = w.generate();
    let tipper = w.generate();
    w.mint(TOKEN, tipper, 1000);

    w.tip(tipper, creator1, TOKEN, 100).unwrap();
    w.tip(tipper, creator2, TOKEN, 200).unwrap();

    assert_eq!(w.jar.get_balance(creator1, TOKEN), 100);
    assert_eq!(w.jar.get_balance(creator2, TOKEN), 200);
    assert_eq!(w.jar.get_total_tips(creator1, TOKEN), 100);
    assert_eq!(w.jar.get_total_tips(creator2, TOKEN), 200);

    w.withdraw(creator1, creator1, TOKEN, creator1, Some(50)).unwrap();

    assert_eq!(w.jar.get_balance(creator1, TOKEN), 50);
    assert_eq!(w.jar.get_balance(creator2, TOKEN), 200);
    assert_eq!(w.jar.get_total_tips(creator1, TOKEN), 100);
    assert_eq!(w.jar.get_total_tips(creator2, TOKEN), 200);
}

#[test]
fn test_complete_migration_workflow() {
    let mut w = World::new();
    let creator = w.generate();
    let tipper = w.generate();

    w.seed_v1_data(creator, 5000, 10000);
    w.mint(TOKEN, tipper, 20000);

    assert_eq!(w.jar.get_data_version(), 1);

    assert_eq!(w.jar.get_balance(creator, TOKEN), 5000);
    assert_eq!(w.jar.get_total_tips(creator, TOKEN), 10000);

    assert!(!w.jar.legacy_balances.has(creator as u128));
    assert!(!w.jar.legacy_totals.has(creator as u128));
    assert!(w.jar.balances.has(pair_key(creator, TOKEN)));
    assert!(w.jar.totals.has(pair_key(creator, TOKEN)));

    w.tip(tipper, creator, TOKEN, 3000).unwrap();
    assert_eq!(w.jar.get_balance(creator, TOKEN), 8000);
    assert_eq!(w.jar.get_total_tips(creator, TOKEN), 13000);

    w.withdraw(creator, creator, TOKEN, creator, Some(2000)).unwrap();
    assert_eq!(w.jar.get_balance(creator, TOKEN), 6000);
    assert_eq!(w.jar.get_total_tips(creator, TOKEN), 13000);

    let new_token = w.new_token();
    w.jar.add_token(ADMIN, new_token).unwrap();

    let new_tipper = w.generate();
    w.mint(new_token, new_tipper, 5000);
    w.tip(new_tipper, creator, new_token, 1000).unwrap();

    assert_eq!(w.jar.get_balance(creator, TOKEN), 6000);
    assert_eq!(w.jar.get_balance(creator, new_token), 1000);
    assert_eq!(w.jar.get_total_tips(creator, TOKEN), 13000);
    assert_eq!(w.jar.get_total_tips(creator, new_token), 1000);
}
