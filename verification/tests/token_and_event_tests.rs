use tipjar::adversarial_token::{AdversarialError, AdversarialTokenContract, Reentry};
use tipjar::events::{emit_fee_event, emit_tip_event, emit_withdraw_event, EVENT_VERSION};
use tipjar::num::div_i128;

const ADMIN: u64 = 1;
const TIPJAR: u64 = 50;

fn token(mode: u32) -> AdversarialTokenContract {
    let mut t = AdversarialTokenContract::new();
    t.init(ADMIN, mode, TIPJAR).unwrap();
    t.mint(10, 100);
    t
}

#[test]
fn token_must_be_initialized_once() {
    let mut t = AdversarialTokenContract::new();
    assert_eq!(t.get_failure_mode(), Err(AdversarialError::NotInitialized));
    assert_eq!(t.transfer(1, 2, 0), Err(AdversarialError::NotInitialized));
    assert_eq!(t.set_failure_mode(1), Err(AdversarialError::NotInitialized));
    t.init(ADMIN, 2, TIPJAR).unwrap();
    assert_eq!(t.init(ADMIN, 0, TIPJAR), Err(AdversarialError::AlreadyInitialized));
    assert_eq!(t.get_failure_mode(), Ok(2));
    t.set_failure_mode(4).unwrap();
    assert_eq!(t.get_failure_mode(), Ok(4));
}

#[test]
fn normal_mode_moves_the_amount() {
    let mut t = token(0);
    assert_eq!(t.transfer(10, 11, 30), Ok(None));
    assert_eq!((t.balance(10), t.balance(11)), (70, 30));
    assert_eq!(t.transfer(10, 11, 71), Err(AdversarialError::InsufficientBalance));
    assert_eq!((t.balance(10), t.balance(11)), (70, 30));
    // Unknown modes behave normally.
    t.set_failure_mode(9).unwrap();
    assert_eq!(t.transfer(10, 11, 70), Ok(None));
    assert_eq!((t.balance(10), t.balance(11)), (0, 100));
}

#[test]
fn failing_mode_moves_nothing() {
    let mut t = token(1);
    assert_eq!(t.transfer(10, 11, 30), Err(AdversarialError::PanicOnTransfer));
    assert_eq!((t.balance(10), t.balance(11)), (100, 0));
}

#[test]
fn silent_mode_reports_success_but_moves_nothing() {
    let mut t = token(2);
    assert_eq!(t.transfer(10, 11, 30), Ok(None));
    assert_eq!((t.balance(10), t.balance(11)), (100, 0));
}

#[test]
fn reentry_mode_moves_then_asks_to_call_the_jar() {
    let mut t = token(3);
    assert_eq!(
        t.transfer(10, 11, 30),
        Ok(Some(Reentry { tipjar: TIPJAR, from: 10, to: 11, amount: 30 }))
    );
    assert_eq!((t.balance(10), t.balance(11)), (70, 30));
}

#[test]
fn lossy_mode_delivers_one_unit_less() {
    let mut t = token(4);
    assert_eq!(t.transfer(10, 11, 30), Ok(None));
    assert_eq!((t.balance(10), t.balance(11)), (71, 29));
    assert_eq!(t.transfer(10, 11, 0), Ok(None));
    assert_eq!((t.balance(10), t.balance(11)), (71, 29));
}

#[test]
fn mint_saturates() {
    let mut t = token(0);
    t.mint(12, i128::MAX);
    t.mint(12, 5);
    assert_eq!(t.balance(12), i128::MAX);
    assert_eq!(t.transfer_normal(12, 13, 5), Ok(()));
    assert_eq!(t.balance(13), 5);
}

#[test]
fn events_carry_their_fields_and_version() {
    let e = emit_tip_event(77, 3, 10, 20, 500, 7);
    assert_eq!(
        (e.version, e.event_id, e.timestamp, e.sender, e.creator, e.amount, e.token),
        (EVENT_VERSION, 3, 77, 10, 20, 500, 7)
    );
    let w = emit_withdraw_event(78, 20, 400, 7);
    assert_eq!((w.version, w.creator, w.amount, w.token, w.timestamp), (1, 20, 400, 7, 78));
    let f = emit_fee_event(79, 20, 7, 25, 250);
    assert_eq!((f.version, f.creator, f.token, f.amount, f.fee_bps, f.timestamp), (1, 20, 7, 25, 250, 79));
}

#[test]
fn division_truncates_toward_zero() {
    assert_eq!(div_i128(7, 2), 3);
    assert_eq!(div_i128(-7, 2), -3);
    assert_eq!(div_i128(7, -2), -3);
    assert_eq!(div_i128(-7, -2), 3);
}
