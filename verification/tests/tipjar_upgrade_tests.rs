use std::collections::HashMap;

use tipjar::common::Transfer;
use tipjar::tipjar::{Error, TipJar, TipJarEvent, PAUSE_FLAG_TIPS};
use tipjar::tipjar_v2::{Migrated, TipJarV2Fixture};

const CONTRACT: u64 = 1000;
const TOKEN: u64 = 7;
const ADMIN: u64 = 1;
const TIMELOCK: u32 = 50;
const V2_HASH: [u8; 32] = [2u8; 32];

/// A jar, the ledger sequence, and the token balances of every address.
struct Ctx {
    jar: TipJar,
    ledger: u32,
    bank: HashMap<u64, i128>,
    next_id: u64,
}

impl Ctx {
    fn new() -> Ctx {
        let mut jar = TipJar::new(CONTRACT);
        jar.init(TOKEN, ADMIN, TIMELOCK).unwrap();
        Ctx { jar, ledger: 0, bank: HashMap::new(), next_id: 100 }
    }

    fn generate(&mut self) -> u64 {
        self.next_id += 1;
        self.next_id
    }

    fn balance(&self, who: u64) -> i128 {
        *self.bank.get(&who).unwrap_or(&0)
    }

    fn fund(&mut self, amount: i128) -> u64 {
        let who = self.generate();
        self.bank.insert(who, amount);
        who
    }

    fn pay(&mut self, t: &Transfer) {
        assert_eq!(t.token, TOKEN);
        let from = self.balance(t.from);
        assert!(from >= t.amount);
        self.bank.insert(t.from, from - t.amount);
        let to = self.balance(t.to);
        self.bank.insert(t.to, to + t.amount);
    }

    fn tip(&mut self, sender: u64, creator: u64, amount: i128) {
        let eff = self.jar.tip(self.ledger, sender, creator, TOKEN, amount).unwrap();
        for t in &eff.transfers {
            self.pay(t);
        }
    }
}

/// The contract after its code was swapped for the second version: the
/// host keeps the address and the storage.
fn upgraded(jar: TipJar) -> TipJarV2Fixture {
    TipJarV2Fixture {
        contract: jar.contract,
        admin: jar.config.admin,
        data_version: jar.config.data_version,
        balances: jar.balances,
        totals: jar.totals,
    }
}

#[test]
fn upgrade_lifecycle_preserves_balances_and_totals_byte_exactly() {
    let mut ctx = Ctx::new();
    let sender = ctx.fund(1_000);
    let creator = ctx.generate();

    ctx.tip(sender, creator, 400);
    ctx.tip(sender, creator, 100);
    assert_eq!(ctx.jar.get_total_tips(creator, TOKEN), 500);

    ctx.jar.propose_upgrade(ctx.ledger, ADMIN, V2_HASH).unwrap();
    ctx.ledger += TIMELOCK;
    let (hash, _) = ctx.jar.execute_upgrade(ctx.ledger).unwrap();
    assert_eq!(hash, V2_HASH);

    let Ctx { jar, mut bank, .. } = ctx;
    let mut v2 = upgraded(jar);
    assert_eq!(v2.get_total_tips(creator, TOKEN), 500);

    let t = v2.tip(sender, creator, TOKEN, 250).unwrap();
    *bank.get_mut(&t.from).unwrap() -= t.amount;
    *bank.entry(t.to).or_insert(0) += t.amount;
    assert_eq!(v2.get_total_tips(creator, TOKEN), 750);

    let t = v2.withdraw(creator, TOKEN, None).unwrap();
    *bank.get_mut(&t.from).unwrap() -= t.amount;
    *bank.entry(t.to).or_insert(0) += t.amount;
    assert_eq!(bank[&creator], 750);
}

#[test]
fn execute_upgrade_one_ledger_before_unlock_panics() {
    let mut ctx = Ctx::new();
    ctx.jar.propose_upgrade(ctx.ledger, ADMIN, V2_HASH).unwrap();
    ctx.ledger += TIMELOCK - 1;
    assert_eq!(ctx.jar.execute_upgrade(ctx.ledger).unwrap_err(), Error::TimelockNotElapsed);
}

#[test]
fn execute_upgrade_exactly_at_unlock_ledger_succeeds() {
    let mut ctx = Ctx::new();
    ctx.jar.propose_upgrade(ctx.ledger, ADMIN, V2_HASH).unwrap();
    ctx.ledger += TIMELOCK;
    ctx.jar.execute_upgrade(ctx.ledger).unwrap();
    assert_eq!(upgraded(ctx.jar).get_data_version(), 1);
}

#[test]
fn cancel_upgrade_prevents_execution_even_after_timelock() {
    let mut ctx = Ctx::new();
    ctx.jar.propose_upgrade(ctx.ledger, ADMIN, V2_HASH).unwrap();
    ctx.jar.cancel_upgrade(ADMIN).unwrap();
    ctx.ledger += TIMELOCK;
    assert_eq!(ctx.jar.execute_upgrade(ctx.ledger).unwrap_err(), Error::NoPendingUpgrade);
}

#[test]
fn execute_upgrade_without_a_pending_proposal_panics() {
    let mut ctx = Ctx::new();
    assert_eq!(ctx.jar.execute_upgrade(ctx.ledger).unwrap_err(), Error::NoPendingUpgrade);
}

#[test]
fn propose_upgrade_rejects_non_admin_caller() {
    let mut ctx = Ctx::new();
    let stranger = ctx.generate();
    assert_eq!(ctx.jar.propose_upgrade(ctx.ledger, stranger, V2_HASH).unwrap_err(), Error::Unauthorized);
}

#[test]
fn cancel_upgrade_rejects_non_admin_caller() {
    let mut ctx = Ctx::new();
    let stranger = ctx.generate();
    ctx.jar.propose_upgrade(ctx.ledger, ADMIN, V2_HASH).unwrap();
    assert_eq!(ctx.jar.cancel_upgrade(stranger).unwrap_err(), Error::Unauthorized);
}

#[test]
fn propose_upgrade_rejects_a_second_pending_proposal() {
    let mut ctx = Ctx::new();
    ctx.jar.propose_upgrade(ctx.ledger, ADMIN, V2_HASH).unwrap();
    assert_eq!(
        ctx.jar.propose_upgrade(ctx.ledger, ADMIN, V2_HASH).unwrap_err(),
        Error::UpgradeAlreadyPending
    );
}

#[test]
fn migrate_is_idempotent_across_repeated_invocations() {
    let mut ctx = Ctx::new();
    ctx.jar.propose_upgrade(ctx.ledger, ADMIN, V2_HASH).unwrap();
    ctx.ledger += TIMELOCK;
    ctx.jar.execute_upgrade(ctx.ledger).unwrap();

    let mut v2 = upgraded(ctx.jar);
    assert_eq!(v2.get_data_version(), 1);

    assert_eq!(v2.migrate(ADMIN), Ok(Some(Migrated { from_version: 1, to_version: 2 })));
    assert_eq!(v2.get_data_version(), 2);

    // Later calls change nothing and announce nothing.
    assert_eq!(v2.migrate(ADMIN), Ok(None));
    assert_eq!(v2.migrate(ADMIN), Ok(None));
    assert_eq!(v2.get_data_version(), 2);
}

#[test]
fn migrate_on_v1_before_any_upgrade_is_a_no_op() {
    let mut ctx = Ctx::new();
    let eff = ctx.jar.migrate(ADMIN).unwrap();
    assert!(eff.events.is_empty());
    assert_eq!(ctx.jar.get_data_version(), 1);
}

#[test]
fn admin_two_step_transfer() {
    let mut ctx = Ctx::new();
    let next_admin = ctx.generate();

    ctx.jar.propose_admin(ADMIN, next_admin).unwrap();
    assert_eq!(ctx.jar.get_admin(), Ok(ADMIN));

    ctx.jar.accept_admin(next_admin).unwrap();
    assert_eq!(ctx.jar.get_admin(), Ok(next_admin));

    assert_eq!(ctx.jar.propose_upgrade(ctx.ledger, ADMIN, V2_HASH).unwrap_err(), Error::Unauthorized);
    ctx.jar.propose_upgrade(ctx.ledger, next_admin, V2_HASH).unwrap();
}

#[test]
fn upgrade_and_admin_events_have_the_documented_topics_and_data() {
    let mut ctx = Ctx::new();
    let ledger_before_propose = ctx.ledger;

    let eff = ctx.jar.propose_upgrade(ctx.ledger, ADMIN, V2_HASH).unwrap();
    assert_eq!(
        eff.events,
        vec![TipJarEvent::UpgradeProposed {
            hash: V2_HASH,
            unlock_ledger: ledger_before_propose + TIMELOCK,
        }]
    );

    let eff = ctx.jar.cancel_upgrade(ADMIN).unwrap();
    assert_eq!(eff.events, vec![TipJarEvent::UpgradeCancelled { hash: V2_HASH }]);

    ctx.jar.propose_upgrade(ctx.ledger, ADMIN, V2_HASH).unwrap();
    ctx.ledger += TIMELOCK;
    let (_, eff) = ctx.jar.execute_upgrade(ctx.ledger).unwrap();
    assert_eq!(eff.events, vec![TipJarEvent::UpgradeExecuted { hash: V2_HASH }]);

    let mut v2 = upgraded(ctx.jar);
    assert_eq!(v2.migrate(ADMIN), Ok(Some(Migrated { from_version: 1, to_version: 2 })));
}

#[test]
fn admin_transfer_events_have_the_documented_topics_and_data() {
    let mut ctx = Ctx::new();
    let next_admin = ctx.generate();

    let eff = ctx.jar.propose_admin(ADMIN, next_admin).unwrap();
    assert_eq!(
        eff.events,
        vec![TipJarEvent::AdminTransferProposed { current_admin: ADMIN, new_admin: next_admin }]
    );

    let eff = ctx.jar.accept_admin(next_admin).unwrap();
    assert_eq!(eff.events, vec![TipJarEvent::AdminTransferAccepted { new_admin: next_admin }]);
}

#[test]
fn accept_admin_rejects_an_address_that_was_not_proposed() {
    let mut ctx = Ctx::new();
    let intended = ctx.generate();
    let impostor = ctx.generate();
    ctx.jar.propose_admin(ADMIN, intended).unwrap();
    assert_eq!(ctx.jar.accept_admin(impostor).unwrap_err(), Error::NoPendingAdmin);
}

#[test]
fn pause_state_survives_a_migrate_call() {
    let mut ctx = Ctx::new();
    ctx.jar.pause_tips(ctx.ledger, ADMIN).unwrap();
    assert_eq!(ctx.jar.pause_flags(ctx.ledger), PAUSE_FLAG_TIPS);
    ctx.jar.migrate(ADMIN).unwrap();
    assert_eq!(ctx.jar.pause_flags(ctx.ledger), PAUSE_FLAG_TIPS);
}

#[test]
fn tokens_can_be_added_and_removed_by_admin() {
    let mut ctx = Ctx::new();
    let sender = ctx.fund(10);
    let creator = ctx.generate();
    assert_eq!(ctx.jar.tip(0, sender, creator, 8, 10).unwrap_err(), Error::TokenNotAllowed);
    ctx.jar.add_token(ADMIN, 8).unwrap();
    ctx.jar.tip(0, sender, creator, 8, 10).unwrap();
    assert_eq!(ctx.jar.get_tokens().unwrap(), vec![TOKEN, 8]);
    ctx.jar.remove_token(ADMIN, 8).unwrap();
    assert_eq!(ctx.jar.get_tokens().unwrap(), vec![TOKEN]);
}

#[test]
fn error_codes_match_the_contract_table() {
    assert_eq!(Error::MaxTokensReached.code(), 25);
    assert_eq!(Error::InvalidTarget.code(), 10);
    assert_eq!(tipjar::tipjar_v2::Error::Unauthorized.code(), 11);
}
