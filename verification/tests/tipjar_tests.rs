use std::collections::HashMap;

use tipjar::tipjar::{
    Effects, Error, TipJar, TipJarEvent, PAUSE_FLAG_TIPS, PAUSE_FLAG_WITHDRAWALS,
    PAYOUT_DELAY_LEDGERS,
};

const CONTRACT: u64 = 1000;
const TOKEN: u64 = 7;
const ADMIN: u64 = 1;
const TEST_UPGRADE_TIMELOCK: u32 = 1000;

/// A jar together with the token balances of every address, moved by the
/// transfers each call hands back, as the token contract would move them.
struct World {
    jar: TipJar,
    ledger: u32,
    bank: HashMap<(u64, u64), i128>,
    next_id: u64,
}

impl World {
    fn new() -> World {
        let mut jar = TipJar::new(CONTRACT);
        jar.init(TOKEN, ADMIN, TEST_UPGRADE_TIMELOCK).unwrap();
        World { jar, ledger: 0, bank: HashMap::new(), next_id: 100 }
    }

    fn generate(&mut self) -> u64 {
        self.next_id += 1;
        self.next_id
    }

    fn mint(&mut self, token: u64, who: u64, amount: i128) {
        let b = self.balance_in(token, who);
        self.bank.insert((token, who), b + amount);
    }

    fn fund(&mut self, amount: i128) -> u64 {
        let who = self.generate();
        self.mint(TOKEN, who, amount);
        who
    }

    fn balance_in(&self, token: u64, who: u64) -> i128 {
        *self.bank.get(&(token, who)).unwrap_or(&0)
    }

    fn balance(&self, who: u64) -> i128 {
        self.balance_in(TOKEN, who)
    }

    fn settle(&mut self, r: Result<Effects, Error>) -> Result<Effects, Error> {
        if let Ok(eff) = &r {
            for t in &eff.transfers {
                let from = self.balance_in(t.token, t.from);
                assert!(from >= t.amount, "transfer exceeds the holder's balance");
                self.bank.insert((t.token, t.from), from - t.amount);
                let to = self.balance_in(t.token, t.to);
                self.bank.insert((t.token, t.to), to + t.amount);
            }
        }
        r
    }

    fn tip(&mut self, sender: u64, creator: u64, token: u64, amount: i128) -> Result<Effects, Error> {
        let r = self.jar.tip(self.ledger, sender, creator, token, amount);
        self.settle(r)
    }

    fn withdraw(
        &mut self,
        caller: u64,
        creator: u64,
        token: u64,
        to: u64,
        amount: Option<i128>,
    ) -> Result<Effects, Error> {
        let r = self.jar.withdraw(self.ledger, caller, creator, token, to, amount);
        self.settle(r)
    }

    fn withdraw_fees(&mut self, caller: u64, token: u64, amount: Option<i128>) -> Result<Effects, Error> {
        let r = self.jar.withdraw_fees(caller, token, amount);
        self.settle(r)
    }
}

#[test]
fn tip_escrows_tokens_and_updates_balance_and_total() {
    let mut w = World::new();
    let sender = w.fund(1_000);
    let creator = w.generate();

    w.tip(sender, creator, TOKEN, 400).unwrap();

    assert_eq!(w.balance(sender), 600);
    assert_eq!(w.balance(CONTRACT), 400);
    assert_eq!(w.jar.get_total_tips(creator, TOKEN), 400);

    w.withdraw(creator, creator, TOKEN, creator, None).unwrap();
    assert_eq!(w.balance(creator), 400);
}

#[test]
fn multiple_tips_accumulate_for_the_same_creator() {
    let mut w = World::new();
    let sender = w.fund(1_000);
    let creator = w.generate();

    w.tip(sender, creator, TOKEN, 100).unwrap();
    w.tip(sender, creator, TOKEN, 200).unwrap();
    w.tip(sender, creator, TOKEN, 300).unwrap();

    assert_eq!(w.jar.get_total_tips(creator, TOKEN), 600);
    assert_eq!(w.balance(CONTRACT), 600);

    w.withdraw(creator, creator, TOKEN, creator, None).unwrap();
    assert_eq!(w.balance(creator), 600);
    assert_eq!(w.jar.get_total_tips(creator, TOKEN), 600);
}

#[test]
fn get_total_tips_is_zero_for_unknown_creator_then_tracks_sum() {
    let mut w = World::new();
    let creator = w.generate();

    assert_eq!(w.jar.get_total_tips(creator, TOKEN), 0);

    let sender = w.fund(500);
    w.tip(sender, creator, TOKEN, 150).unwrap();
    w.tip(sender, creator, TOKEN, 50).unwrap();

    assert_eq!(w.jar.get_total_tips(creator, TOKEN), 200);
}

#[test]
fn withdraw_pays_out_full_balance_resets_it_and_keeps_total() {
    let mut w = World::new();
    let sender = w.fund(1_000);
    let creator = w.generate();

    w.tip(sender, creator, TOKEN, 700).unwrap();
    w.withdraw(creator, creator, TOKEN, creator, None).unwrap();

    assert_eq!(w.balance(creator), 700);
    assert_eq!(w.balance(CONTRACT), 0);
    assert_eq!(w.jar.get_total_tips(creator, TOKEN), 700);

    let err = w.withdraw(creator, creator, TOKEN, creator, None).unwrap_err();
    assert_eq!(err, Error::NothingToWithdraw);
}

#[test]
fn tip_rejects_zero_and_negative_amounts() {
    let mut w = World::new();
    let sender = w.fund(1_000);
    let creator = w.generate();

    for bad_amount in [0i128, -1i128] {
        let err = w.tip(sender, creator, TOKEN, bad_amount).unwrap_err();
        assert_eq!(err, Error::InvalidAmount);
    }

    assert_eq!(w.balance(sender), 1_000);
    assert_eq!(w.jar.get_total_tips(creator, TOKEN), 0);
}

#[test]
fn double_init_is_rejected() {
    let mut w = World::new();
    let other_admin = w.generate();
    let err = w.jar.init(TOKEN, other_admin, TEST_UPGRADE_TIMELOCK).unwrap_err();
    assert_eq!(err, Error::AlreadyInitialized);
}

#[test]
fn init_rejects_zero_timelock() {
    let mut jar = TipJar::new(CONTRACT);
    let err = jar.init(TOKEN, ADMIN, 0).unwrap_err();
    assert_eq!(err, Error::InvalidTimelock);
}

#[test]
fn withdraw_with_nothing_to_withdraw_errors() {
    let mut w = World::new();
    let creator = w.generate();
    let err = w.withdraw(creator, creator, TOKEN, creator, None).unwrap_err();
    assert_eq!(err, Error::NothingToWithdraw);
}

#[test]
fn tip_emits_tip_event_with_creator_topic_and_sender_amount_data() {
    let mut w = World::new();
    let sender = w.fund(1_000);
    let creator = w.generate();

    let eff = w.tip(sender, creator, TOKEN, 250).unwrap();
    assert_eq!(
        eff.events,
        vec![TipJarEvent::Tip { creator, token: TOKEN, sender, amount: 250 }]
    );
}

#[test]
fn withdraw_emits_withdraw_event_with_creator_topic_and_amount_data() {
    let mut w = World::new();
    let sender = w.fund(1_000);
    let creator = w.generate();

    let tip = w.tip(sender, creator, TOKEN, 250).unwrap();
    assert_eq!(
        tip.events,
        vec![TipJarEvent::Tip { creator, token: TOKEN, sender, amount: 250 }]
    );

    let out = w.withdraw(creator, creator, TOKEN, creator, None).unwrap();
    assert_eq!(
        out.events,
        vec![TipJarEvent::Withdraw { creator, token: TOKEN, amount: 250, to: creator }]
    );
}

#[test]
fn zero_fee_is_a_true_noop() {
    let mut w = World::new();
    let sender = w.fund(1_000);
    let creator = w.generate();

    let eff = w.tip(sender, creator, TOKEN, 400).unwrap();
    assert_eq!(
        eff.events,
        vec![TipJarEvent::Tip { creator, token: TOKEN, sender, amount: 400 }]
    );

    assert_eq!(w.jar.get_total_tips(creator, TOKEN), 400);
    assert_eq!(w.jar.get_fee_balance(TOKEN), Ok(0));

    w.withdraw(creator, creator, TOKEN, creator, None).unwrap();
    assert_eq!(w.balance(creator), 400);
}

#[test]
fn explicit_zero_fee_config_is_also_a_true_noop() {
    let mut w = World::new();
    let sender = w.fund(1_000);
    let creator = w.generate();

    w.jar.set_fee(ADMIN, 0).unwrap();
    let eff = w.tip(sender, creator, TOKEN, 400).unwrap();
    assert_eq!(
        eff.events,
        vec![TipJarEvent::Tip { creator, token: TOKEN, sender, amount: 400 }]
    );

    assert_eq!(w.jar.get_total_tips(creator, TOKEN), 400);
    assert_eq!(w.jar.get_fee_balance(TOKEN), Ok(0));
}

#[test]
fn tip_with_fee_credits_net_to_creator_and_accrues_fee_conserving_gross() {
    let mut w = World::new();
    let sender = w.fund(100_000);
    let creator = w.generate();

    w.jar.set_fee(ADMIN, 250).unwrap();
    let eff = w.tip(sender, creator, TOKEN, 10_000).unwrap();
    assert_eq!(
        eff.events,
        vec![
            TipJarEvent::FeeCharged { creator, gross: 10_000, fee: 250, net: 9_750 },
            TipJarEvent::Tip { creator, token: TOKEN, sender, amount: 10_000 },
        ]
    );

    assert_eq!(w.jar.get_fee_balance(TOKEN), Ok(250));
    assert_eq!(w.jar.get_total_tips(creator, TOKEN), 10_000);
    assert_eq!(w.balance(CONTRACT), 10_000);

    w.withdraw(creator, creator, TOKEN, creator, None).unwrap();
    assert_eq!(w.balance(creator), 9_750);
}

#[test]
fn one_stroop_tip_at_max_fee_floors_to_zero_fee_but_still_conserves() {
    let mut w = World::new();
    let sender = w.fund(1_000);
    let creator = w.generate();

    w.jar.set_fee(ADMIN, 1_000).unwrap();
    w.tip(sender, creator, TOKEN, 1).unwrap();

    assert_eq!(w.jar.get_fee_balance(TOKEN), Ok(0));
    w.withdraw(creator, creator, TOKEN, creator, None).unwrap();
    assert_eq!(w.balance(creator), 1);
}

#[test]
fn tip_fee_overflow_near_i128_max_panics_with_typed_error() {
    let mut w = World::new();
    let creator = w.generate();
    let sender = w.generate();
    w.mint(TOKEN, sender, i128::MAX);

    w.jar.set_fee(ADMIN, 1_000).unwrap();

    let err = w.tip(sender, creator, TOKEN, i128::MAX).unwrap_err();
    assert_eq!(err, Error::FeeOverflow);

    assert_eq!(w.balance(sender), i128::MAX);
    assert_eq!(w.jar.get_total_tips(creator, TOKEN), 0);
}

#[test]
fn set_fee_by_non_admin_panics_with_typed_error() {
    let mut w = World::new();
    let stranger = w.generate();
    let err = w.jar.set_fee(stranger, 250).unwrap_err();
    assert_eq!(err, Error::Unauthorized);
}

#[test]
fn set_fee_above_cap_panics_with_typed_error() {
    let mut w = World::new();

    let err = w.jar.set_fee(ADMIN, 1_001).unwrap_err();
    assert_eq!(err, Error::InvalidFee);

    w.jar.set_fee(ADMIN, 1_000).unwrap();
    assert_eq!(w.jar.get_fee_bps(), 1_000);
}

#[test]
fn withdraw_fees_pays_out_collector_and_resets_balance() {
    let mut w = World::new();
    let sender = w.fund(10_000);
    let creator = w.generate();
    let collector = w.generate();

    w.jar.set_fee(ADMIN, 500).unwrap();
    w.jar.propose_fee_collector(ADMIN, collector).unwrap();
    w.jar.accept_fee_collector(collector).unwrap();
    w.tip(sender, creator, TOKEN, 2_000).unwrap();

    w.withdraw_fees(collector, TOKEN, None).unwrap();

    assert_eq!(w.balance(collector), 100);
    assert_eq!(w.jar.get_fee_balance(TOKEN), Ok(0));

    let err = w.withdraw_fees(collector, TOKEN, None).unwrap_err();
    assert_eq!(err, Error::NothingToWithdraw);
}

#[test]
fn withdraw_fees_by_non_collector_panics_with_typed_error() {
    let mut w = World::new();
    let sender = w.fund(10_000);
    let creator = w.generate();
    let collector = w.generate();
    let stranger = w.generate();

    w.jar.set_fee(ADMIN, 500).unwrap();
    w.jar.propose_fee_collector(ADMIN, collector).unwrap();
    w.jar.accept_fee_collector(collector).unwrap();
    w.tip(sender, creator, TOKEN, 2_000).unwrap();

    let err = w.withdraw_fees(stranger, TOKEN, None).unwrap_err();
    assert_eq!(err, Error::NotFeeCollector);
}

#[test]
fn withdraw_fees_with_nothing_configured_errors() {
    let mut w = World::new();
    let anyone = w.generate();
    let err = w.withdraw_fees(anyone, TOKEN, None).unwrap_err();
    assert_eq!(err, Error::NothingToWithdraw);
}

#[test]
fn withdraw_fees_is_isolated_per_token() {
    let mut w = World::new();
    let token_b = w.generate();

    w.jar.add_token(ADMIN, token_b).unwrap();

    let sender_a = w.fund(10_000);
    let sender_b = w.generate();
    w.mint(token_b, sender_b, 10_000);
    let creator = w.generate();
    let collector = w.generate();

    w.jar.set_fee(ADMIN, 1_000).unwrap();
    w.jar.propose_fee_collector(ADMIN, collector).unwrap();
    w.jar.accept_fee_collector(collector).unwrap();
    w.tip(sender_a, creator, TOKEN, 2_000).unwrap();
    w.tip(sender_b, creator, token_b, 5_000).unwrap();

    assert_eq!(w.jar.get_fee_balance(TOKEN), Ok(200));
    assert_eq!(w.jar.get_fee_balance(token_b), Ok(500));

    w.withdraw_fees(collector, TOKEN, None).unwrap();
    assert_eq!(w.balance(collector), 200);
    assert_eq!(w.balance_in(token_b, collector), 0);
    assert_eq!(w.jar.get_fee_balance(TOKEN), Ok(0));
    assert_eq!(w.jar.get_fee_balance(token_b), Ok(500));

    w.withdraw_fees(collector, token_b, None).unwrap();
    assert_eq!(w.balance_in(token_b, collector), 500);
    assert_eq!(w.balance(collector), 200);
    assert_eq!(w.jar.get_fee_balance(token_b), Ok(0));

    let err = w.withdraw_fees(collector, token_b, None).unwrap_err();
    assert_eq!(err, Error::NothingToWithdraw);

    assert_eq!(w.jar.get_balance(creator, TOKEN), 1_800);
    assert_eq!(w.jar.get_balance(creator, token_b), 4_500);
}

#[test]
fn legacy_unparameterized_fee_balance_migrates_to_primary_token() {
    let mut w = World::new();
    let collector = w.generate();
    w.jar.set_fee(ADMIN, 500).unwrap();
    w.jar.propose_fee_collector(ADMIN, collector).unwrap();
    w.jar.accept_fee_collector(collector).unwrap();

    // A fee counter written before fees were kept per token.
    w.jar.config.legacy_fee_balance = Some(100);
    let donor = w.fund(100);
    let b = w.balance(donor);
    w.bank.insert((TOKEN, donor), b - 100);
    w.mint(TOKEN, CONTRACT, 100);

    assert_eq!(w.jar.get_fee_balance(TOKEN), Ok(100));
    assert_eq!(w.jar.config.legacy_fee_balance, None);
    assert_eq!(w.jar.fee_balances.get(TOKEN as u128), Some(100));

    w.withdraw_fees(collector, TOKEN, None).unwrap();
    assert_eq!(w.balance(collector), 100);
    assert_eq!(w.jar.get_fee_balance(TOKEN), Ok(0));
}

#[test]
fn two_step_admin_transfer_completes_and_moves_governance() {
    let mut w = World::new();
    let new_admin = w.generate();

    w.jar.propose_admin(ADMIN, new_admin).unwrap();
    assert_eq!(w.jar.get_pending_admin(), Some(new_admin));
    assert_eq!(w.jar.get_admin(), Ok(ADMIN));

    w.jar.accept_admin(new_admin).unwrap();
    assert_eq!(w.jar.get_admin(), Ok(new_admin));
    assert_eq!(w.jar.get_pending_admin(), None);

    let err = w.jar.set_fee(ADMIN, 100).unwrap_err();
    assert_eq!(err, Error::Unauthorized);

    w.jar.set_fee(new_admin, 100).unwrap();
}

#[test]
fn two_step_admin_transfer_can_be_abandoned() {
    let mut w = World::new();
    let proposed = w.generate();

    w.jar.propose_admin(ADMIN, proposed).unwrap();
    w.jar.cancel_admin_transfer(ADMIN).unwrap();

    assert_eq!(w.jar.get_pending_admin(), None);
    assert_eq!(w.jar.get_admin(), Ok(ADMIN));

    let err = w.jar.accept_admin(proposed).unwrap_err();
    assert_eq!(err, Error::NoPendingAdmin);
}

#[test]
fn propose_admin_by_non_admin_panics_with_typed_error() {
    let mut w = World::new();
    let stranger = w.generate();
    let target = w.generate();
    let err = w.jar.propose_admin(stranger, target).unwrap_err();
    assert_eq!(err, Error::Unauthorized);
}

#[test]
fn accept_admin_by_address_other_than_pending_panics_with_typed_error() {
    let mut w = World::new();
    let proposed = w.generate();
    let impostor = w.generate();

    w.jar.propose_admin(ADMIN, proposed).unwrap();

    let err = w.jar.accept_admin(impostor).unwrap_err();
    assert_eq!(err, Error::NoPendingAdmin);
}

#[test]
fn accept_admin_with_no_pending_proposal_errors() {
    let mut w = World::new();
    let anyone = w.generate();
    let err = w.jar.accept_admin(anyone).unwrap_err();
    assert_eq!(err, Error::NoPendingAdmin);
}

#[test]
fn cancel_admin_transfer_with_nothing_pending_errors() {
    let mut w = World::new();
    let err = w.jar.cancel_admin_transfer(ADMIN).unwrap_err();
    assert_eq!(err, Error::NoPendingAdmin);
}

// ── scenarios of the delegated-withdrawal and payout features ────────────

#[test]
fn test_exhaustive_auth_matrix() {
    let mut w = World::new();
    let creator = w.generate();
    let operator = w.generate();
    let stranger = w.generate();
    let payout = w.generate();
    let other_address = w.generate();

    let sender = w.fund(1000);
    w.tip(sender, creator, TOKEN, 1000).unwrap();

    w.jar.set_payout_address(w.ledger, creator, payout).unwrap();

    w.ledger += 17280;

    w.jar.authorize_operator(w.ledger, creator, operator, 500, w.ledger + 100).unwrap();

    assert_eq!(w.withdraw(stranger, creator, TOKEN, payout, Some(10)).unwrap_err(), Error::InvalidOperator);
    assert_eq!(
        w.withdraw(stranger, creator, TOKEN, other_address, Some(10)).unwrap_err(),
        Error::InvalidOperator
    );

    assert_eq!(
        w.withdraw(operator, creator, TOKEN, payout, Some(600)).unwrap_err(),
        Error::InsufficientAllowance
    );
    assert_eq!(
        w.withdraw(operator, creator, TOKEN, other_address, Some(600)).unwrap_err(),
        Error::InsufficientAllowance
    );

    assert_eq!(
        w.withdraw(operator, creator, TOKEN, other_address, Some(100)).unwrap_err(),
        Error::InvalidTarget
    );

    w.withdraw(operator, creator, TOKEN, payout, Some(100)).unwrap();

    w.ledger += 101;
    assert_eq!(w.withdraw(operator, creator, TOKEN, payout, Some(10)).unwrap_err(), Error::OperatorExpired);
    assert_eq!(
        w.withdraw(operator, creator, TOKEN, other_address, Some(10)).unwrap_err(),
        Error::OperatorExpired
    );

    w.ledger -= 101;
    w.jar.revoke_operator(w.ledger, creator, operator).unwrap();
    assert_eq!(w.withdraw(operator, creator, TOKEN, payout, Some(10)).unwrap_err(), Error::InvalidOperator);
    assert_eq!(
        w.withdraw(operator, creator, TOKEN, other_address, Some(10)).unwrap_err(),
        Error::InvalidOperator
    );

    assert_eq!(
        w.withdraw(creator, creator, TOKEN, other_address, Some(10)).unwrap_err(),
        Error::InvalidTarget
    );

    w.withdraw(creator, creator, TOKEN, payout, Some(10)).unwrap();
}

#[test]
fn test_payout_delay_and_cancellation() {
    let mut w = World::new();
    let creator = w.generate();
    let payout = w.generate();
    let sender = w.fund(1000);

    w.tip(sender, creator, TOKEN, 1000).unwrap();
    w.jar.set_payout_address(w.ledger, creator, payout).unwrap();

    w.withdraw(creator, creator, TOKEN, creator, Some(100)).unwrap();
    assert_eq!(w.balance(creator), 100);

    w.jar.cancel_payout_address(w.ledger, creator).unwrap();

    w.ledger += 17280;

    w.withdraw(creator, creator, TOKEN, creator, Some(100)).unwrap();
    assert_eq!(w.balance(creator), 200);

    let new_payout = w.generate();
    w.jar.set_payout_address(w.ledger, creator, new_payout).unwrap();
    w.ledger += 17280;

    w.withdraw(creator, creator, TOKEN, new_payout, Some(100)).unwrap();
    assert_eq!(w.balance(new_payout), 100);
}

#[test]
fn test_partial_withdraw_edges() {
    let mut w = World::new();
    let creator = w.generate();
    let sender = w.fund(100);

    w.tip(sender, creator, TOKEN, 100).unwrap();

    w.withdraw(creator, creator, TOKEN, creator, Some(1)).unwrap();
    assert_eq!(
        w.withdraw(creator, creator, TOKEN, creator, Some(100)).unwrap_err(),
        Error::InvalidAmount
    );
    w.withdraw(creator, creator, TOKEN, creator, Some(99)).unwrap();

    let creator2 = w.generate();
    let sender2 = w.fund(100);
    w.tip(sender2, creator2, TOKEN, 100).unwrap();
    w.withdraw(creator2, creator2, TOKEN, creator2, Some(20)).unwrap();
    w.withdraw(creator2, creator2, TOKEN, creator2, Some(30)).unwrap();
    w.withdraw(creator2, creator2, TOKEN, creator2, Some(50)).unwrap();

    assert_eq!(
        w.withdraw(creator2, creator2, TOKEN, creator2, Some(1)).unwrap_err(),
        Error::NothingToWithdraw
    );
}

#[test]
fn test_ttl_resurrection_prevention() {
    let mut w = World::new();
    let creator = w.generate();
    let operator = w.generate();

    w.jar.authorize_operator(w.ledger, creator, operator, 100, 1000).unwrap();
    w.jar.revoke_operator(w.ledger, creator, operator).unwrap();

    let sender = w.fund(1000);
    w.tip(sender, creator, TOKEN, 1000).unwrap();
    assert_eq!(
        w.withdraw(operator, creator, TOKEN, creator, Some(10)).unwrap_err(),
        Error::InvalidOperator
    );
}

#[test]
fn payout_change_takes_effect_after_the_delay() {
    let mut w = World::new();
    let sender = w.fund(100);
    let creator = w.generate();
    let payout = w.generate();
    w.tip(sender, creator, TOKEN, 100).unwrap();
    w.ledger = 1_000;
    let eff = w.jar.set_payout_address(w.ledger, creator, payout).unwrap();
    assert_eq!(
        eff.events,
        vec![TipJarEvent::PayoutChangeProposed {
            creator,
            new_payout: payout,
            effective_ledger: 1_000 + PAYOUT_DELAY_LEDGERS,
        }]
    );
    w.ledger = 1_000 + PAYOUT_DELAY_LEDGERS - 1;
    w.withdraw(creator, creator, TOKEN, creator, Some(10)).unwrap();
    assert_eq!(w.balance(creator), 10);
    w.ledger += 1;
    assert_eq!(
        w.withdraw(creator, creator, TOKEN, creator, Some(10)).unwrap_err(),
        Error::InvalidTarget
    );
    w.withdraw(creator, creator, TOKEN, payout, Some(10)).unwrap();
    assert_eq!(w.balance(payout), 10);
}

#[test]
fn operator_withdraws_within_allowance_until_expiry() {
    let mut w = World::new();
    let sender = w.fund(100);
    let creator = w.generate();
    let operator = w.generate();
    w.tip(sender, creator, TOKEN, 100).unwrap();
    w.jar.authorize_operator(0, creator, operator, 30, 500).unwrap();
    w.ledger = 10;
    w.withdraw(operator, creator, TOKEN, creator, Some(20)).unwrap();
    assert_eq!(
        w.withdraw(operator, creator, TOKEN, creator, Some(20)).unwrap_err(),
        Error::InsufficientAllowance
    );
    w.ledger = 600;
    assert_eq!(
        w.withdraw(operator, creator, TOKEN, creator, Some(5)).unwrap_err(),
        Error::OperatorExpired
    );
    assert_eq!(w.jar.get_balance(creator, TOKEN), 80);
    assert_eq!(w.balance(creator), 20);
}

#[test]
fn operator_allowance_spent_exactly_removes_the_delegation() {
    let mut w = World::new();
    let sender = w.fund(100);
    let creator = w.generate();
    let operator = w.generate();
    w.tip(sender, creator, TOKEN, 100).unwrap();
    w.jar.authorize_operator(0, creator, operator, 30, 500).unwrap();
    w.withdraw(operator, creator, TOKEN, creator, Some(30)).unwrap();
    assert_eq!(
        w.withdraw(operator, creator, TOKEN, creator, Some(1)).unwrap_err(),
        Error::InvalidOperator
    );
}

// ── circuit breaker ──────────────────────────────────────────────────────

#[test]
fn paused_tips_and_withdrawals_are_refused_until_unpaused() {
    let mut w = World::new();
    let sender = w.fund(300);
    let creator = w.generate();
    w.ledger = 10;
    w.tip(sender, creator, TOKEN, 100).unwrap();
    w.jar.pause_tips(w.ledger, ADMIN).unwrap();
    w.ledger = 11;
    assert!(w.jar.is_feature_paused(w.ledger, PAUSE_FLAG_TIPS));
    assert_eq!(w.tip(sender, creator, TOKEN, 100).unwrap_err(), Error::TipsPaused);
    w.withdraw(creator, creator, TOKEN, creator, Some(10)).unwrap();
    w.ledger = 12;
    w.jar.pause_withdrawals(w.ledger, ADMIN).unwrap();
    assert_eq!(
        w.withdraw(creator, creator, TOKEN, creator, Some(10)).unwrap_err(),
        Error::WithdrawalsPaused
    );
    w.jar.unpause_all(ADMIN).unwrap();
    w.ledger = 13;
    assert!(!w.jar.is_feature_paused(w.ledger, PAUSE_FLAG_WITHDRAWALS));
    w.tip(sender, creator, TOKEN, 100).unwrap();
    assert_eq!(w.balance(CONTRACT), 190);
}

#[test]
fn guardian_pause_lapses_after_its_window() {
    let mut w = World::new();
    let sender = w.fund(10);
    let creator = w.generate();
    let guardian = w.generate();
    w.jar.set_guardian(ADMIN, guardian).unwrap();
    w.jar.set_guardian_pause_duration(ADMIN, 50).unwrap();
    w.jar.pause_tips(100, guardian).unwrap();
    w.ledger = 149;
    assert_eq!(w.tip(sender, creator, TOKEN, 1).unwrap_err(), Error::TipsPaused);
    w.ledger = 150;
    w.tip(sender, creator, TOKEN, 1).unwrap();
}

#[test]
fn guardian_cannot_unpause() {
    let mut w = World::new();
    let guardian = w.generate();
    w.jar.set_guardian(ADMIN, guardian).unwrap();
    w.jar.pause_all(0, guardian).unwrap();
    assert_eq!(w.jar.unpause_all(guardian).unwrap_err(), Error::Unauthorized);
    assert_eq!(w.jar.pause_flags(1), PAUSE_FLAG_TIPS | PAUSE_FLAG_WITHDRAWALS);
}

// ── fee preview ──────────────────────────────────────────────────────────

#[test]
fn preview_fee_splits_gross() {
    assert_eq!(TipJar::preview_fee(10_000, 250), Ok((250, 9_750)));
    assert_eq!(TipJar::preview_fee(1, 1_000), Ok((0, 1)));
    assert_eq!(TipJar::preview_fee(100, 0), Ok((0, 100)));
}

#[test]
fn fee_collector_rotation_takes_two_steps() {
    let mut w = World::new();
    let (first, second, stranger) = (w.generate(), w.generate(), w.generate());
    assert_eq!(w.jar.propose_fee_collector(stranger, first).unwrap_err(), Error::Unauthorized);
    assert_eq!(w.jar.accept_fee_collector(first).unwrap_err(), Error::NoPendingFeeCollector);
    let eff = w.jar.propose_fee_collector(ADMIN, first).unwrap();
    assert_eq!(eff.events, vec![TipJarEvent::FeeCollectorProposed { admin: ADMIN, new_collector: first }]);
    assert_eq!(w.jar.accept_fee_collector(stranger).unwrap_err(), Error::NoPendingFeeCollector);
    assert_eq!(w.jar.get_fee_collector(), None);
    let eff = w.jar.accept_fee_collector(first).unwrap();
    assert_eq!(eff.events, vec![TipJarEvent::FeeCollectorAccepted { new_collector: first }]);
    assert_eq!(w.jar.get_fee_collector(), Some(first));
    // changing the rate never touches the collector
    w.jar.set_fee(ADMIN, 300).unwrap();
    assert_eq!(w.jar.get_fee_collector(), Some(first));
    // a proposal can be withdrawn before it is accepted
    w.jar.propose_fee_collector(ADMIN, second).unwrap();
    assert_eq!(w.jar.cancel_fee_collector_transfer(stranger).unwrap_err(), Error::Unauthorized);
    let eff = w.jar.cancel_fee_collector_transfer(ADMIN).unwrap();
    assert_eq!(eff.events, vec![TipJarEvent::FeeCollectorCancelled { admin: ADMIN }]);
    assert_eq!(w.jar.accept_fee_collector(second).unwrap_err(), Error::NoPendingFeeCollector);
    assert_eq!(
        w.jar.cancel_fee_collector_transfer(ADMIN).unwrap_err(),
        Error::NoPendingFeeCollector
    );
    assert_eq!(w.jar.get_fee_collector(), Some(first));
    assert_eq!(Error::NoPendingFeeCollector.code(), 26);
}
