use std::collections::HashMap;

use tipjar::tipjar::{
    Effects, Error, TipJar, TipJarEvent, PAUSE_FLAG_ALL, PAUSE_FLAG_TIPS, PAUSE_FLAG_WITHDRAWALS,
};

const CONTRACT: u64 = 1000;
const TOKEN: u64 = 7;
const ADMIN: u64 = 1;
const TIMELOCK: u32 = 1000;

/// A jar, the ledger sequence, and the token balances of every address.
struct Ctx {
    jar: TipJar,
    ledger: u32,
    bank: HashMap<(u64, u64), i128>,
    next_id: u64,
}

impl Ctx {
    fn new() -> Ctx {
        let mut jar = TipJar::new(CONTRACT);
        jar.init(TOKEN, ADMIN, TIMELOCK).unwrap();
        Ctx { jar, ledger: 0, bank: HashMap::new(), next_id: 100 }
    }

    fn generate(&mut self) -> u64 {
        self.next_id += 1;
        self.next_id
    }

    fn funded_holder(&mut self, token: u64, amount: i128) -> u64 {
        let a = self.generate();
        self.bank.insert((token, a), amount);
        a
    }

    fn tipper(&mut self) -> u64 {
        self.funded_holder(TOKEN, 10_000)
    }

    fn creator(&mut self) -> u64 {
        self.generate()
    }

    fn add_token(&mut self) -> u64 {
        let token = self.generate();
        self.jar.add_token(ADMIN, token).unwrap();
        token
    }

    fn balance(&self, token: u64, who: u64) -> i128 {
        *self.bank.get(&(token, who)).unwrap_or(&0)
    }

    fn settle(&mut self, r: Result<Effects, Error>) -> Result<Effects, Error> {
        if let Ok(eff) = &r {
            for t in &eff.transfers {
                let from = self.balance(t.token, t.from);
                assert!(from >= t.amount, "transfer exceeds the holder's balance");
                self.bank.insert((t.token, t.from), from - t.amount);
                let to = self.balance(t.token, t.to);
                self.bank.insert((t.token, t.to), to + t.amount);
            }
        }
        r
    }

    fn tip(&mut self, sender: u64, creator: u64, token: u64, amount: i128) -> Result<Effects, Error> {
        let r = self.jar.tip(self.ledger, sender, creator, token, amount);
        self.settle(r)
    }

    fn withdraw(
        &mut self,
        caller: u64,
        creator: u64,
        token: u64,
        to: u64,
        amount: Option<i128>,
    ) -> Result<Effects, Error> {
        let r = self.jar.withdraw(self.ledger, caller, creator, token, to, amount);
        self.settle(r)
    }
}

#[test]
fn test_contract_deployment() {
    let mut jar = TipJar::new(CONTRACT);
    jar.init(TOKEN, ADMIN, TIMELOCK).unwrap();
}

#[test]
fn test_send_tip() {
    let mut ctx = Ctx::new();
    let (tipper, creator) = (ctx.tipper(), ctx.creator());
    ctx.tip(tipper, creator, TOKEN, 100).unwrap();
}

#[test]
fn test_total_after_tip() {
    let mut ctx = Ctx::new();
    let (tipper, creator) = (ctx.tipper(), ctx.creator());
    ctx.tip(tipper, creator, TOKEN, 100).unwrap();
    assert_eq!(ctx.jar.get_total_tips(creator, TOKEN), 100);
}

#[test]
fn test_total_accumulates_across_multiple_tips() {
    let mut ctx = Ctx::new();
    let (tipper, creator) = (ctx.tipper(), ctx.creator());
    ctx.tip(tipper, creator, TOKEN, 100).unwrap();
    ctx.tip(tipper, creator, TOKEN, 200).unwrap();
    ctx.tip(tipper, creator, TOKEN, 300).unwrap();
    assert_eq!(ctx.jar.get_total_tips(creator, TOKEN), 600);
}

#[test]
fn test_withdrawal() {
    let mut ctx = Ctx::new();
    let (tipper, creator) = (ctx.tipper(), ctx.creator());
    ctx.tip(tipper, creator, TOKEN, 500).unwrap();
    ctx.withdraw(creator, creator, TOKEN, creator, None).unwrap();
    assert_eq!(ctx.jar.get_total_tips(creator, TOKEN), 500);
    assert_eq!(ctx.balance(TOKEN, creator), 500);
}

#[test]
fn test_full_withdrawal_then_nothing_left() {
    let mut ctx = Ctx::new();
    let (tipper, creator) = (ctx.tipper(), ctx.creator());
    ctx.tip(tipper, creator, TOKEN, 1_000).unwrap();
    ctx.withdraw(creator, creator, TOKEN, creator, None).unwrap();
    assert_eq!(
        ctx.withdraw(creator, creator, TOKEN, creator, None).unwrap_err(),
        Error::NothingToWithdraw
    );
}

#[test]
fn test_partial_withdrawal_keeps_remainder() {
    let mut ctx = Ctx::new();
    let (tipper, creator) = (ctx.tipper(), ctx.creator());
    ctx.tip(tipper, creator, TOKEN, 1_000).unwrap();

    ctx.withdraw(creator, creator, TOKEN, creator, Some(400)).unwrap();
    assert_eq!(ctx.jar.get_total_tips(creator, TOKEN), 1_000);
    assert_eq!(ctx.balance(TOKEN, creator), 400);

    ctx.withdraw(creator, creator, TOKEN, creator, Some(600)).unwrap();
    assert_eq!(ctx.balance(TOKEN, creator), 1_000);
}

#[test]
fn test_partial_withdrawal_rejects_amount_over_balance() {
    let mut ctx = Ctx::new();
    let (tipper, creator) = (ctx.tipper(), ctx.creator());
    ctx.tip(tipper, creator, TOKEN, 300).unwrap();
    assert_eq!(
        ctx.withdraw(creator, creator, TOKEN, creator, Some(301)).unwrap_err(),
        Error::InvalidAmount
    );
}

#[test]
fn test_insufficient_balance_rejected() {
    let mut ctx = Ctx::new();
    let creator = ctx.creator();
    assert_eq!(
        ctx.withdraw(creator, creator, TOKEN, creator, None).unwrap_err(),
        Error::NothingToWithdraw
    );
}

#[test]
fn test_invalid_amount_rejected() {
    let mut ctx = Ctx::new();
    let (tipper, creator) = (ctx.tipper(), ctx.creator());
    for bad in [0i128, -1i128] {
        assert_eq!(ctx.tip(tipper, creator, TOKEN, bad).unwrap_err(), Error::InvalidAmount);
    }
}

#[test]
fn test_event_emission() {
    let mut ctx = Ctx::new();
    let (tipper, creator) = (ctx.tipper(), ctx.creator());
    let eff = ctx.tip(tipper, creator, TOKEN, 100).unwrap();
    assert_eq!(
        eff.events,
        vec![TipJarEvent::Tip { creator, token: TOKEN, sender: tipper, amount: 100 }]
    );
}

#[test]
fn test_multifeature_non_primary_token_fee_operator_after_guardian_pause_expires() {
    let mut ctx = Ctx::new();
    let secondary_token = ctx.add_token();
    let tipper = ctx.funded_holder(secondary_token, 10_000);
    let creator = ctx.creator();
    let operator = ctx.generate();
    let fee_collector = ctx.generate();
    let guardian = ctx.generate();

    ctx.jar.set_fee(ADMIN, 250).unwrap();
    ctx.jar.propose_fee_collector(ADMIN, fee_collector).unwrap();
    ctx.jar.accept_fee_collector(fee_collector).unwrap();
    ctx.jar.set_guardian(ADMIN, guardian).unwrap();
    ctx.jar.set_guardian_pause_duration(ADMIN, 5).unwrap();
    ctx.jar.pause_all(ctx.ledger, guardian).unwrap();

    assert_eq!(ctx.jar.pause_flags(ctx.ledger), PAUSE_FLAG_ALL);
    assert_eq!(ctx.tip(tipper, creator, secondary_token, 1_000).unwrap_err(), Error::TipsPaused);

    let expiry = ctx.jar.guardian_pause_expiry_ledger();
    ctx.ledger = expiry;
    assert_eq!(ctx.jar.pause_flags(ctx.ledger), 0);

    ctx.tip(tipper, creator, secondary_token, 1_000).unwrap();

    assert_eq!(ctx.jar.get_total_tips(creator, secondary_token), 1_000);
    assert_eq!(ctx.jar.get_balance(creator, secondary_token), 975);
    assert_eq!(ctx.jar.get_fee_balance(secondary_token), Ok(25));
    assert_eq!(ctx.balance(secondary_token, CONTRACT), 1_000);

    ctx.jar.authorize_operator(ctx.ledger, creator, operator, 975, expiry + 10).unwrap();
    ctx.withdraw(operator, creator, secondary_token, creator, None).unwrap();
    let r = ctx.jar.withdraw_fees(fee_collector, secondary_token, None);
    ctx.settle(r).unwrap();

    assert_eq!(ctx.jar.get_balance(creator, secondary_token), 0);
    assert_eq!(ctx.jar.get_fee_balance(secondary_token), Ok(0));
    assert_eq!(ctx.balance(secondary_token, creator), 975);
    assert_eq!(ctx.balance(secondary_token, fee_collector), 25);
    assert_eq!(ctx.balance(secondary_token, CONTRACT), 0);
    assert_eq!(ctx.balance(TOKEN, creator), 0);
}

#[test]
fn escrow_matches_balances_and_fees() {
    let mut ctx = Ctx::new();
    ctx.jar.set_fee(ADMIN, 250).unwrap();
    ctx.jar.propose_fee_collector(ADMIN, 50).unwrap();
    ctx.jar.accept_fee_collector(50).unwrap();
    let (tipper, a, b) = (ctx.tipper(), ctx.creator(), ctx.creator());
    let held = |ctx: &mut Ctx| {
        let owed = ctx.jar.get_balance(a, TOKEN) + ctx.jar.get_balance(b, TOKEN)
            + ctx.jar.get_fee_balance(TOKEN).unwrap();
        assert_eq!(ctx.balance(TOKEN, CONTRACT), owed);
    };
    ctx.tip(tipper, a, TOKEN, 1_000).unwrap();
    held(&mut ctx);
    ctx.tip(tipper, b, TOKEN, 333).unwrap();
    held(&mut ctx);
    ctx.withdraw(a, a, TOKEN, a, Some(400)).unwrap();
    held(&mut ctx);
    let r = ctx.jar.withdraw_fees(50, TOKEN, None);
    ctx.settle(r).unwrap();
    held(&mut ctx);
    assert_eq!(ctx.balance(TOKEN, CONTRACT), 975 - 400 + 325);
}

#[test]
#[should_panic(expected = "AlreadyInitialized")]
fn test_double_init_rejected() {
    let mut ctx = Ctx::new();
    ctx.jar.init(TOKEN, ADMIN, TIMELOCK).unwrap();
}

#[test]
fn test_unauthorized_withdraw_wrong_signer() {
    let mut ctx = Ctx::new();
    let (sender, creator, wrong_signer) = (ctx.tipper(), ctx.creator(), ctx.creator());
    ctx.tip(sender, creator, TOKEN, 100).unwrap();
    // a caller that is neither the creator nor one of its operators is refused
    assert_eq!(ctx.withdraw(wrong_signer, creator, TOKEN, creator, None).unwrap_err(), Error::InvalidOperator);
    assert_eq!(ctx.jar.get_balance(creator, TOKEN), 100);
}

#[test]
fn test_withdraw_with_zero_balance_returns_nothing_to_withdraw() {
    let mut ctx = Ctx::new();
    let creator = ctx.creator();
    assert_eq!(ctx.withdraw(creator, creator, TOKEN, creator, None).unwrap_err(), Error::NothingToWithdraw);
}

#[test]
fn test_multiple_creators_accumulate_balances_independently() {
    let mut ctx = Ctx::new();
    let (sender, creator_a, creator_b) = (ctx.tipper(), ctx.creator(), ctx.creator());
    ctx.tip(sender, creator_a, TOKEN, 100).unwrap();
    ctx.tip(sender, creator_b, TOKEN, 200).unwrap();
    assert_eq!(ctx.jar.get_total_tips(creator_a, TOKEN), 100);
    assert_eq!(ctx.jar.get_total_tips(creator_b, TOKEN), 200);
}

#[test]
fn test_withdrawing_one_creator_does_not_affect_another() {
    let mut ctx = Ctx::new();
    let (sender, creator_a, creator_b) = (ctx.tipper(), ctx.creator(), ctx.creator());
    ctx.tip(sender, creator_a, TOKEN, 150).unwrap();
    ctx.tip(sender, creator_b, TOKEN, 250).unwrap();
    assert_eq!(ctx.jar.get_total_tips(creator_a, TOKEN), 150);
    assert_eq!(ctx.jar.get_total_tips(creator_b, TOKEN), 250);
    ctx.withdraw(creator_a, creator_a, TOKEN, creator_a, None).unwrap();
    assert_eq!(ctx.jar.get_total_tips(creator_a, TOKEN), 150);
    assert_eq!(ctx.jar.get_total_tips(creator_b, TOKEN), 250);
    assert_eq!(ctx.jar.get_balance(creator_a, TOKEN), 0);
    assert_eq!(ctx.jar.get_balance(creator_b, TOKEN), 250);
}

#[test]
fn test_tip_event_emitted_with_correct_data() {
    let mut ctx = Ctx::new();
    let (sender, creator) = (ctx.tipper(), ctx.creator());
    let eff = ctx.tip(sender, creator, TOKEN, 123).unwrap();
    assert!(!eff.events.is_empty());
    assert_eq!(eff.events, vec![TipJarEvent::Tip { creator, token: TOKEN, sender, amount: 123 }]);
}

#[test]
fn test_withdraw_event_emitted_with_correct_amount() {
    let mut ctx = Ctx::new();
    let (sender, creator) = (ctx.tipper(), ctx.creator());
    ctx.tip(sender, creator, TOKEN, 200).unwrap();
    let eff = ctx.withdraw(creator, creator, TOKEN, creator, None).unwrap();
    assert!(!eff.events.is_empty());
    assert_eq!(eff.events, vec![TipJarEvent::Withdraw { creator, token: TOKEN, amount: 200, to: creator }]);
}

#[test]
fn test_multiple_tips_to_same_creator_accumulate() {
    let mut ctx = Ctx::new();
    let (sender, creator) = (ctx.tipper(), ctx.creator());
    ctx.tip(sender, creator, TOKEN, 100).unwrap();
    ctx.tip(sender, creator, TOKEN, 200).unwrap();
    ctx.tip(sender, creator, TOKEN, 150).unwrap();
    assert_eq!(ctx.jar.get_total_tips(creator, TOKEN), 450);
}

#[test]
fn test_zero_tip_amount_rejected() {
    let mut ctx = Ctx::new();
    let (sender, creator) = (ctx.tipper(), ctx.creator());
    assert!(ctx.tip(sender, creator, TOKEN, 0).is_err());
}

#[test]
fn test_negative_tip_amount_rejected() {
    let mut ctx = Ctx::new();
    let (sender, creator) = (ctx.tipper(), ctx.creator());
    assert!(ctx.tip(sender, creator, TOKEN, -100).is_err());
}

#[test]
fn test_tip_with_non_whitelisted_token_rejected() {
    let mut ctx = Ctx::new();
    let (sender, creator) = (ctx.tipper(), ctx.creator());
    let non_whitelisted_token = ctx.generate();
    ctx.bank.insert((non_whitelisted_token, sender), 500);
    assert!(ctx.tip(sender, creator, non_whitelisted_token, 100).is_err());
}

#[test]
fn test_creator_can_tip_themselves() {
    let mut ctx = Ctx::new();
    let creator = ctx.funded_holder(TOKEN, 500);
    ctx.tip(creator, creator, TOKEN, 100).unwrap();
    assert_eq!(ctx.jar.get_total_tips(creator, TOKEN), 100);
}

#[test]
fn test_second_withdraw_after_zero_balance_fails() {
    let mut ctx = Ctx::new();
    let (sender, creator) = (ctx.tipper(), ctx.creator());
    ctx.tip(sender, creator, TOKEN, 100).unwrap();
    ctx.withdraw(creator, creator, TOKEN, creator, None).unwrap();
    assert_eq!(ctx.withdraw(creator, creator, TOKEN, creator, None).unwrap_err(), Error::NothingToWithdraw);
}

#[test]
fn test_insufficient_balance_for_tip_rejected() {
    let mut ctx = Ctx::new();
    let (sender, creator) = (ctx.funded_holder(TOKEN, 100), ctx.creator());
    // the jar asks the host to move the whole amount from the sender, which
    // holds far less: the host refuses that transfer and the call with it
    let eff = ctx.jar.tip(ctx.ledger, sender, creator, TOKEN, 2_000_000).unwrap();
    assert_eq!(eff.transfers[0].from, sender);
    assert!(eff.transfers[0].amount > ctx.balance(TOKEN, sender));
}

#[test]
fn test_feature_pause_false_by_default() {
    let ctx = Ctx::new();
    assert!(!ctx.jar.is_feature_paused(ctx.ledger, PAUSE_FLAG_TIPS));
    assert!(!ctx.jar.is_feature_paused(ctx.ledger, PAUSE_FLAG_WITHDRAWALS));
}

#[test]
fn test_pause_feature_requires_admin() {
    let mut ctx = Ctx::new();
    let non_admin = ctx.creator();
    assert_eq!(ctx.jar.pause_tips(ctx.ledger, non_admin).unwrap_err(), Error::Unauthorized);
}

#[test]
fn test_unpause_feature_requires_admin() {
    let mut ctx = Ctx::new();
    ctx.jar.pause_tips(ctx.ledger, ADMIN).unwrap();
    let non_admin = ctx.creator();
    assert_eq!(ctx.jar.unpause_tips(non_admin).unwrap_err(), Error::Unauthorized);
}

#[test]
fn test_pause_and_unpause_feature_roundtrip() {
    let mut ctx = Ctx::new();
    ctx.jar.pause_tips(ctx.ledger, ADMIN).unwrap();
    assert!(ctx.jar.is_feature_paused(ctx.ledger, PAUSE_FLAG_TIPS));
    ctx.jar.unpause_tips(ADMIN).unwrap();
    assert!(!ctx.jar.is_feature_paused(ctx.ledger, PAUSE_FLAG_TIPS));
}

#[test]
fn test_scopes_are_independent() {
    let mut ctx = Ctx::new();
    ctx.jar.pause_withdrawals(ctx.ledger, ADMIN).unwrap();
    assert!(!ctx.jar.is_feature_paused(ctx.ledger, PAUSE_FLAG_TIPS));
    assert!(ctx.jar.is_feature_paused(ctx.ledger, PAUSE_FLAG_WITHDRAWALS));
}

#[test]
fn test_tip_blocked_when_tipping_scope_paused() {
    let mut ctx = Ctx::new();
    let (sender, creator) = (ctx.tipper(), ctx.creator());
    ctx.jar.pause_tips(ctx.ledger, ADMIN).unwrap();
    assert_eq!(ctx.tip(sender, creator, TOKEN, 100).unwrap_err(), Error::TipsPaused);
}

#[test]
fn test_tip_works_after_tipping_scope_unpaused() {
    let mut ctx = Ctx::new();
    let (sender, creator) = (ctx.tipper(), ctx.creator());
    ctx.jar.pause_tips(ctx.ledger, ADMIN).unwrap();
    ctx.jar.unpause_tips(ADMIN).unwrap();
    ctx.tip(sender, creator, TOKEN, 100).unwrap();
    assert_eq!(ctx.jar.get_balance(creator, TOKEN), 100);
}

#[test]
fn test_withdraw_blocked_when_withdrawals_scope_paused() {
    let mut ctx = Ctx::new();
    let (sender, creator) = (ctx.tipper(), ctx.creator());
    ctx.tip(sender, creator, TOKEN, 100).unwrap();
    ctx.jar.pause_withdrawals(ctx.ledger, ADMIN).unwrap();
    assert_eq!(ctx.withdraw(creator, creator, TOKEN, creator, None).unwrap_err(), Error::WithdrawalsPaused);
}

#[test]
fn test_tip_still_works_when_only_withdrawals_paused() {
    let mut ctx = Ctx::new();
    let (sender, creator) = (ctx.tipper(), ctx.creator());
    ctx.jar.pause_withdrawals(ctx.ledger, ADMIN).unwrap();
    ctx.tip(sender, creator, TOKEN, 200).unwrap();
    assert_eq!(ctx.jar.get_balance(creator, TOKEN), 200);
}

#[test]
fn test_withdraw_uses_correct_ordering() {
    let mut ctx = Ctx::new();
    let (sender, creator) = (ctx.tipper(), ctx.creator());
    ctx.tip(sender, creator, TOKEN, 500).unwrap();
    assert_eq!(ctx.jar.get_balance(creator, TOKEN), 500);
    // the balance is written before the transfer is handed to the host
    let r = ctx.jar.withdraw(ctx.ledger, creator, creator, TOKEN, creator, None);
    assert_eq!(ctx.jar.get_balance(creator, TOKEN), 0);
    ctx.settle(r).unwrap();
    assert_eq!(ctx.jar.get_balance(creator, TOKEN), 0);
}

#[test]
fn test_tip_uses_correct_ordering() {
    let mut ctx = Ctx::new();
    let (sender, creator) = (ctx.tipper(), ctx.creator());
    ctx.tip(sender, creator, TOKEN, 500).unwrap();
    assert_eq!(ctx.jar.get_balance(creator, TOKEN), 500);
    assert_eq!(ctx.jar.get_total_tips(creator, TOKEN), 500);
}

#[test]
fn test_self_tip_allowed() {
    let mut ctx = Ctx::new();
    let sender = ctx.funded_holder(TOKEN, 1000);
    ctx.tip(sender, sender, TOKEN, 500).unwrap();
    assert_eq!(ctx.jar.get_balance(sender, TOKEN), 500);
}

#[test]
fn test_tip_to_contract_address() {
    let mut ctx = Ctx::new();
    let sender = ctx.funded_holder(TOKEN, 1000);
    ctx.tip(sender, CONTRACT, TOKEN, 500).unwrap();
    assert_eq!(ctx.jar.get_balance(CONTRACT, TOKEN), 500);
}

#[test]
fn test_i128_max_adjacent_balance() {
    let mut ctx = Ctx::new();
    let large_amount = i128::MAX / 2;
    let (sender, creator) = (ctx.funded_holder(TOKEN, large_amount), ctx.creator());
    ctx.tip(sender, creator, TOKEN, large_amount - 1).unwrap();
    assert_eq!(ctx.jar.get_balance(creator, TOKEN), large_amount - 1);
    let more = ctx.balance(TOKEN, sender) + 1000;
    ctx.bank.insert((TOKEN, sender), more);
    // far from overflow: the second tip is credited in full
    ctx.tip(sender, creator, TOKEN, 500).unwrap();
    assert_eq!(ctx.jar.get_balance(creator, TOKEN), large_amount + 499);
}

#[test]
fn test_minimum_tip_amount() {
    let mut ctx = Ctx::new();
    let (sender, creator) = (ctx.funded_holder(TOKEN, 1), ctx.creator());
    ctx.tip(sender, creator, TOKEN, 1).unwrap();
    assert_eq!(ctx.jar.get_balance(creator, TOKEN), 1);
}

#[test]
fn test_zero_tip_rejected() {
    let mut ctx = Ctx::new();
    let (sender, creator) = (ctx.tipper(), ctx.creator());
    assert!(ctx.tip(sender, creator, TOKEN, 0).is_err());
}

#[test]
fn test_negative_tip_rejected() {
    let mut ctx = Ctx::new();
    let (sender, creator) = (ctx.tipper(), ctx.creator());
    assert!(ctx.tip(sender, creator, TOKEN, -1000).is_err());
}

#[test]
fn test_multiple_consecutive_tips_accumulate() {
    let mut ctx = Ctx::new();
    let (sender, creator) = (ctx.funded_holder(TOKEN, 10_000), ctx.creator());
    for _ in 1..=10 {
        ctx.tip(sender, creator, TOKEN, 100).unwrap();
    }
    assert_eq!(ctx.jar.get_balance(creator, TOKEN), 1000);
    assert_eq!(ctx.jar.get_total_tips(creator, TOKEN), 1000);
}

#[test]
fn test_default_fee_bps_is_zero() {
    let ctx = Ctx::new();
    assert_eq!(ctx.jar.get_fee_bps(), 0);
}

#[test]
fn test_default_platform_fees_is_zero() {
    let mut ctx = Ctx::new();
    assert_eq!(ctx.jar.get_fee_balance(TOKEN), Ok(0));
}

#[test]
fn test_set_fee_bps_requires_admin() {
    let mut ctx = Ctx::new();
    let non_admin = ctx.creator();
    assert_eq!(ctx.jar.set_fee(non_admin, 100).unwrap_err(), Error::Unauthorized);
    assert_eq!(ctx.jar.get_fee_bps(), 0);
}

#[test]
fn test_set_fee_bps_rejects_above_max() {
    let mut ctx = Ctx::new();
    assert_eq!(ctx.jar.set_fee(ADMIN, 1001).unwrap_err(), Error::InvalidFee);
    assert_eq!(ctx.jar.get_fee_bps(), 0);
}

#[test]
fn test_set_fee_bps_updates_value() {
    let mut ctx = Ctx::new();
    ctx.jar.set_fee(ADMIN, 250).unwrap();
    assert_eq!(ctx.jar.get_fee_bps(), 250);
}

#[test]
fn test_tip_with_zero_fee_credits_full_amount() {
    let mut ctx = Ctx::new();
    let (sender, creator) = (ctx.funded_holder(TOKEN, 1_000), ctx.creator());
    ctx.tip(sender, creator, TOKEN, 1_000).unwrap();
    assert_eq!(ctx.jar.get_balance(creator, TOKEN), 1_000);
    assert_eq!(ctx.jar.get_fee_balance(TOKEN), Ok(0));
}

#[test]
fn test_tip_deducts_configured_fee_and_credits_remainder() {
    let mut ctx = Ctx::new();
    ctx.jar.set_fee(ADMIN, 500).unwrap();
    let (sender, creator) = (ctx.funded_holder(TOKEN, 1_000), ctx.creator());
    ctx.tip(sender, creator, TOKEN, 1_000).unwrap();
    assert_eq!(ctx.jar.get_balance(creator, TOKEN), 950);
    assert_eq!(ctx.jar.get_fee_balance(TOKEN), Ok(50));
}

#[test]
fn test_platform_fees_accumulate_across_tips() {
    let mut ctx = Ctx::new();
    ctx.jar.set_fee(ADMIN, 1000).unwrap();
    let (sender, creator) = (ctx.funded_holder(TOKEN, 10_000), ctx.creator());
    ctx.tip(sender, creator, TOKEN, 1_000).unwrap();
    ctx.tip(sender, creator, TOKEN, 2_000).unwrap();
    assert_eq!(ctx.jar.get_fee_balance(TOKEN), Ok(300));
    assert_eq!(ctx.jar.get_balance(creator, TOKEN), 2_700);
}

#[test]
fn test_withdraw_fees_requires_admin() {
    let mut ctx = Ctx::new();
    // the admin names itself the fee collector; anyone else is refused
    ctx.jar.set_fee(ADMIN, 500).unwrap();
    ctx.jar.propose_fee_collector(ADMIN, ADMIN).unwrap();
    ctx.jar.accept_fee_collector(ADMIN).unwrap();
    let non_admin = ctx.creator();
    assert_eq!(ctx.jar.withdraw_fees(non_admin, TOKEN, None).unwrap_err(), Error::NotFeeCollector);
}

#[test]
fn test_withdraw_fees_fails_when_nothing_accumulated() {
    let mut ctx = Ctx::new();
    ctx.jar.set_fee(ADMIN, 500).unwrap();
    ctx.jar.propose_fee_collector(ADMIN, ADMIN).unwrap();
    ctx.jar.accept_fee_collector(ADMIN).unwrap();
    assert_eq!(ctx.jar.withdraw_fees(ADMIN, TOKEN, None).unwrap_err(), Error::NothingToWithdraw);
}

#[test]
fn test_withdraw_fees_transfers_balance_and_resets_to_zero() {
    let mut ctx = Ctx::new();
    ctx.jar.set_fee(ADMIN, 500).unwrap();
    ctx.jar.propose_fee_collector(ADMIN, ADMIN).unwrap();
    ctx.jar.accept_fee_collector(ADMIN).unwrap();
    let (sender, creator) = (ctx.funded_holder(TOKEN, 1_000), ctx.creator());
    ctx.tip(sender, creator, TOKEN, 1_000).unwrap();
    assert_eq!(ctx.jar.get_fee_balance(TOKEN), Ok(50));
    let admin_balance_before = ctx.balance(TOKEN, ADMIN);
    let r = ctx.jar.withdraw_fees(ADMIN, TOKEN, None);
    let eff = ctx.settle(r).unwrap();
    assert_eq!(eff.transfers[0].amount, 50);
    assert_eq!(ctx.balance(TOKEN, ADMIN), admin_balance_before + 50);
    assert_eq!(ctx.jar.get_fee_balance(TOKEN), Ok(0));
    assert_eq!(ctx.jar.withdraw_fees(ADMIN, TOKEN, None).unwrap_err(), Error::NothingToWithdraw);
}
