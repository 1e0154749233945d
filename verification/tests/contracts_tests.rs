use tipjar::arbitrage::{ArbitrageContract, ArbitrageError, ArbitrageEvent};
use tipjar::derivatives::{DerivativesContract, DerivativesError, Order};
use tipjar::limit_orders::{LimitOrderError, LimitOrdersContract};
use tipjar::risk::{RiskError, RiskManagementContract};

const CALL: u64 = 1;
const PUT: u64 = 2;

#[test]
fn test_place_and_match_orders() {
    let mut d = DerivativesContract::new(1000);
    let (buyer, seller, token) = (1, 2, 50);
    let buy_id = d.place_order(buyer, CALL, token, 100, 9999, 10, true).unwrap();
    let sell_id = d.place_order(seller, CALL, token, 100, 9999, 10, false).unwrap();
    assert_eq!(buy_id, 1);
    assert_eq!(sell_id, 2);
    d.match_orders();
    let buy_pos = d.get_position(buyer, buy_id).unwrap();
    assert_eq!(buy_pos.quantity, 10);
    assert_eq!(buy_pos.entry_price, 100);
    assert_eq!(buy_pos.owner, buyer);
    assert_eq!(buy_pos.derivative_id, buy_id);
    let sell_pos = d.get_position(seller, sell_id).unwrap();
    assert_eq!(sell_pos.quantity, 10);
    assert_eq!(sell_pos.entry_price, 100);
    assert_eq!(sell_pos.owner, seller);
    assert_eq!(sell_pos.derivative_id, sell_id);
}

#[test]
fn test_settle_after_expiry() {
    let mut d = DerivativesContract::new(1000);
    let owner = 3;
    let order_id = d.place_order(owner, PUT, 60, 50, 1000, 5, true).unwrap();
    let t = d.settle_order(2000, owner, order_id).unwrap();
    assert_eq!(t.amount, 250);
    assert_eq!((t.from, t.to, t.token), (1000, owner, 60));
    let order: Order = d.get_order(order_id).unwrap();
    assert!(order.settled);
    assert_eq!(order.id, order_id);
    assert_eq!(order.quantity, 5);
    assert_eq!(order.strike_price, 50);
}

#[test]
fn test_settle_before_expiry_fails() {
    let mut d = DerivativesContract::new(1000);
    let order_id = d.place_order(3, CALL, 60, 100, 9999, 1, true).unwrap();
    assert_eq!(d.settle_order(100, 3, order_id), Err(DerivativesError::NotExpired));
}

#[test]
fn test_non_owner_cancel_fails() {
    let mut d = DerivativesContract::new(1000);
    let order_id = d.place_order(3, CALL, 60, 100, 9999, 1, true).unwrap();
    assert_eq!(d.cancel_order(4, order_id), Err(DerivativesError::Unauthorized));
}

#[test]
fn test_owner_cancel_succeeds() {
    let mut d = DerivativesContract::new(1000);
    let order_id = d.place_order(3, CALL, 60, 100, 9999, 1, true).unwrap();
    d.cancel_order(3, order_id).unwrap();
    let order = d.get_order(order_id).unwrap();
    assert!(order.settled);
    assert_eq!(order.owner, 3);
    assert_eq!(order.quantity, 1);
}

#[test]
fn derivatives_reject_bad_amounts_and_match_cheapest_first_seller() {
    let mut d = DerivativesContract::new(1000);
    assert_eq!(d.place_order(1, CALL, 9, 0, 1, 1, true), Err(DerivativesError::InvalidAmount));
    let b = d.place_order(1, CALL, 9, 100, 10, 7, true).unwrap();
    let dear = d.place_order(2, CALL, 9, 150, 10, 3, false).unwrap();
    let other_kind = d.place_order(3, PUT, 9, 90, 10, 3, false).unwrap();
    let fits = d.place_order(4, CALL, 9, 90, 10, 3, false).unwrap();
    d.match_orders();
    assert_eq!(d.get_position(1, b).unwrap().quantity, 3);
    assert_eq!(d.get_position(1, b).unwrap().entry_price, 90);
    assert!(d.get_position(2, dear).is_err());
    assert!(d.get_position(3, other_kind).is_err());
    assert!(d.get_order(fits).unwrap().settled);
    assert_eq!(DerivativesError::PositionNotFound.code(), 6);
}

#[test]
fn test_detect_opportunity_profitable() {
    let mut a = ArbitrageContract::new();
    a.update_price(0, 1, 10, 7, 1000).unwrap();
    a.update_price(0, 1, 11, 7, 1200).unwrap();
    assert_eq!(a.detect_opportunity(7, 10, 11), Ok((200, true)));
}

#[test]
fn test_detect_opportunity_not_profitable() {
    let mut a = ArbitrageContract::new();
    a.update_price(0, 1, 10, 7, 1000).unwrap();
    a.update_price(0, 1, 11, 7, 1005).unwrap();
    assert_eq!(a.detect_opportunity(7, 10, 11), Ok((5, false)));
}

#[test]
fn test_execute_arbitrage_stores_record_and_emits_event() {
    let mut a = ArbitrageContract::new();
    a.update_price(0, 1, 10, 7, 1000).unwrap();
    a.update_price(0, 1, 11, 7, 1200).unwrap();
    let profit = a.execute_arbitrage(5, 2, 7, 10, 11, 100).unwrap();
    assert!(profit > 0);
    assert_eq!(profit, 20);
    let records = a.get_performance(2);
    assert_eq!(records.len(), 1);
    assert_eq!(records[0].profit, profit);
    assert_eq!(
        a.events.last(),
        Some(&ArbitrageEvent::Executed { executor: 2, token: 7, profit })
    );
}

#[test]
fn test_execute_arbitrage_fails_when_not_profitable() {
    let mut a = ArbitrageContract::new();
    a.update_price(0, 1, 10, 7, 1000).unwrap();
    a.update_price(0, 1, 11, 7, 1000).unwrap();
    assert_eq!(a.execute_arbitrage(5, 2, 7, 10, 11, 100), Err(ArbitrageError::NotProfitable));
}

#[test]
fn test_get_performance_returns_correct_records() {
    let mut a = ArbitrageContract::new();
    a.update_price(0, 1, 10, 7, 1000).unwrap();
    a.update_price(0, 1, 11, 7, 1200).unwrap();
    a.execute_arbitrage(5, 2, 7, 10, 11, 100).unwrap();
    a.execute_arbitrage(5, 2, 7, 10, 11, 200).unwrap();
    a.execute_arbitrage(5, 3, 7, 10, 11, 50).unwrap();
    assert_eq!(a.get_performance(2).len(), 2);
    assert_eq!(a.get_performance(3).len(), 1);
}

#[test]
fn arbitrage_errors() {
    let mut a = ArbitrageContract::new();
    assert_eq!(a.update_price(0, 1, 10, 7, 0), Err(ArbitrageError::InvalidAmount));
    assert_eq!(a.detect_opportunity(7, 10, 11), Err(ArbitrageError::PriceNotFound));
    assert_eq!(a.execute_arbitrage(0, 1, 7, 10, 11, 0), Err(ArbitrageError::InvalidAmount));
    a.update_price(0, 1, 10, 7, 1000).unwrap();
    a.update_price(0, 1, 11, 7, 1010).unwrap();
    // exactly 1% above is not enough
    assert_eq!(a.execute_arbitrage(0, 1, 7, 10, 11, 10), Err(ArbitrageError::NotProfitable));
}

#[test]
fn test_place_order_locks_tokens() {
    let mut l = LimitOrdersContract::new(1000);
    let (id, t) = l.place_order(1, 20, 21, 500, 100).unwrap();
    assert_eq!(id, 1);
    assert_eq!((t.token, t.from, t.to, t.amount), (20, 1, 1000, 500));
}

#[test]
fn test_match_order_executes_at_limit_price() {
    let mut l = LimitOrdersContract::new(1000);
    let (id, _) = l.place_order(1, 20, 21, 100, 50).unwrap();
    let t = l.match_order(id, 50).unwrap();
    assert_eq!(t.amount, 100);
    assert_eq!(t.token, 21);
    let order = l.get_order(id).unwrap();
    assert_eq!(order.filled, 100);
    assert_eq!(order.amount_in, 100);
    assert_eq!(order.limit_price, 50);
    assert_eq!(order.owner, 1);
}

#[test]
fn test_match_order_fails_when_price_above_limit() {
    let mut l = LimitOrdersContract::new(1000);
    let (id, _) = l.place_order(1, 20, 21, 100, 50).unwrap();
    assert_eq!(l.match_order(id, 60), Err(LimitOrderError::PriceNotMet));
}

#[test]
fn test_partial_fill_updates_filled_field() {
    let mut l = LimitOrdersContract::new(1000);
    let (id, _) = l.place_order(1, 20, 21, 100, 50).unwrap();
    l.match_order(id, 25).unwrap();
    let order = l.get_order(id).unwrap();
    assert_eq!(order.filled, 100);
    assert_eq!(order.id, id);
    assert!(!order.cancelled);
    assert_eq!(l.match_order(id, 25), Err(LimitOrderError::AlreadyFilled));
}

#[test]
fn test_cancel_refunds_tokens() {
    let mut l = LimitOrdersContract::new(1000);
    let (id, _) = l.place_order(1, 20, 21, 500, 100).unwrap();
    let refund = l.cancel_order(1, id).unwrap().unwrap();
    assert_eq!((refund.token, refund.to, refund.amount), (20, 1, 500));
    let order = l.get_order(id).unwrap();
    assert!(order.cancelled);
    assert_eq!(order.filled, 0);
    assert_eq!(order.amount_in, 500);
    assert_eq!(l.cancel_order(1, id), Err(LimitOrderError::AlreadyCancelled));
}

#[test]
fn limit_order_non_owner_cancel_fails() {
    let mut l = LimitOrdersContract::new(1000);
    let (id, _) = l.place_order(1, 20, 21, 500, 100).unwrap();
    assert_eq!(l.cancel_order(2, id), Err(LimitOrderError::Unauthorized));
}

#[test]
fn limit_order_book_lists_pair_orders() {
    let mut l = LimitOrdersContract::new(1000);
    l.place_order(1, 20, 21, 5, 1).unwrap();
    l.place_order(2, 21, 20, 6, 1).unwrap();
    l.place_order(3, 20, 21, 7, 1).unwrap();
    let book = l.get_order_book(20, 21);
    assert_eq!(book.iter().map(|o| o.owner).collect::<Vec<_>>(), vec![1, 3]);
    assert_eq!(l.place_order(1, 20, 21, 0, 1), Err(LimitOrderError::InvalidAmount));
}

fn risk_setup() -> RiskManagementContract {
    let mut r = RiskManagementContract::new();
    r.init(0, 99);
    r
}

#[test]
fn test_exposure_update_recalculates_risk_score() {
    let mut r = risk_setup();
    r.register_participant(1, 1000).unwrap();
    r.update_exposure(0, 1, 500).unwrap();
    let p = r.check_exposure(1).unwrap();
    assert_eq!(p.exposure, 500);
    assert_eq!(p.risk_score, 50);
}

#[test]
fn test_risk_score_capped_at_100() {
    let mut r = risk_setup();
    r.register_participant(1, 100).unwrap();
    assert_eq!(r.update_exposure(0, 1, 200), Ok(true));
    assert_eq!(r.check_exposure(1).unwrap().risk_score, 100);
}

#[test]
fn test_enforce_limit_blocks_when_exceeded() {
    let mut r = risk_setup();
    r.register_participant(1, 100).unwrap();
    r.update_exposure(0, 1, 200).unwrap();
    assert_eq!(r.enforce_limit(1), Err(RiskError::ExposureLimitExceeded));
}

#[test]
fn test_enforce_limit_passes_when_under() {
    let mut r = risk_setup();
    r.register_participant(1, 1000).unwrap();
    assert_eq!(r.update_exposure(0, 1, 500), Ok(false));
    assert_eq!(r.enforce_limit(1), Ok(()));
}

#[test]
fn test_non_admin_reset_fails() {
    let mut r = risk_setup();
    r.register_participant(1, 1000).unwrap();
    r.update_exposure(0, 1, 500).unwrap();
    assert_eq!(r.reset_exposure(0, 2, 1), Err(RiskError::Unauthorized));
}

#[test]
fn test_admin_reset_succeeds() {
    let mut r = risk_setup();
    r.register_participant(1, 1000).unwrap();
    r.update_exposure(0, 1, 500).unwrap();
    r.reset_exposure(5, 99, 1).unwrap();
    let p = r.check_exposure(1).unwrap();
    assert_eq!(p.exposure, 0);
    assert_eq!(p.risk_score, 0);
    assert_eq!(r.get_risk_metrics().total_exposure, 0);
}

#[test]
fn test_get_risk_metrics() {
    let mut r = risk_setup();
    r.register_participant(1, 1000).unwrap();
    r.update_exposure(7, 1, 300).unwrap();
    let m = r.get_risk_metrics();
    assert_eq!(m.total_exposure, 300);
    assert_eq!(m.last_updated, 7);
}

#[test]
fn risk_registration_errors_and_negative_exposure() {
    let mut r = risk_setup();
    assert_eq!(r.register_participant(1, 0), Err(RiskError::InvalidThreshold));
    r.register_participant(1, 1000).unwrap();
    assert_eq!(r.register_participant(1, 5), Err(RiskError::AlreadyRegistered));
    assert_eq!(r.update_exposure(0, 2, 5), Err(RiskError::NotRegistered));
    r.update_exposure(0, 1, -500).unwrap();
    assert_eq!(r.check_exposure(1).unwrap().risk_score, 0);
    assert_eq!(RiskError::InvalidThreshold.code(), 5);
}
