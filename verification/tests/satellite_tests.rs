use tipjar::access_lists::{AccessListError, AccessLists, ListScope};
use tipjar::aggregation::{AggregationConfig, AggregationError, Aggregator, BatchStatus};
use tipjar::market_making::{MakerStatus, MarketMaking, MarketMakingError};
use tipjar::stop_loss::{StopLoss, StopLossError, StopOrderKind, StopOrderStatus};

const CONTRACT: u64 = 1000;

fn aggregator() -> Aggregator {
    let mut a = Aggregator::new(CONTRACT, Some(1));
    a.set_whitelisted(7, true);
    a
}

#[test]
fn aggregation_default_config() {
    let c = AggregationConfig::default();
    assert_eq!(c.optimal_batch_size, 10);
    assert_eq!(c.min_batch_size, 2);
    assert_eq!(c.max_batch_size, 50);
    assert_eq!(c.batch_window_seconds, 3_600);
    assert_eq!(c.fee_bps, 10);
    assert!(c.enabled);
}

#[test]
fn queue_and_settle_batch() {
    let mut a = aggregator();
    assert_eq!(a.queue_tip(0, 2, 3, 7, 0).unwrap_err(), AggregationError::InvalidAmount);
    assert_eq!(a.queue_tip(0, 2, 3, 8, 5).unwrap_err(), AggregationError::TokenNotWhitelisted);
    let ((batch, idx), t) = a.queue_tip(0, 2, 3, 7, 10_000).unwrap();
    assert_eq!((batch, idx), (1, 0));
    assert_eq!((t.from, t.to, t.amount), (2, CONTRACT, 10_000));
    let ((batch2, idx2), _) = a.queue_tip(5, 4, 3, 7, 20_000).unwrap();
    assert_eq!((batch2, idx2), (1, 1));
    assert_eq!(a.get_tipper_tips(1, 4), vec![1]);
    // two tips, window not over: not ready
    assert_eq!(a.settle_batch(100, 9, 1).unwrap_err(), AggregationError::AggregationBatchNotReady);
    let res = a.settle_batch(3_600, 9, 1).unwrap();
    assert_eq!(res.tip_count, 2);
    assert_eq!(res.fee_amount, 30);
    assert_eq!(res.creator_amount, 29_970);
    assert_eq!(res.creator_amount + res.fee_amount, 30_000);
    assert_eq!(a.get_batch(1).unwrap().status, BatchStatus::Settled);
    assert!(a.get_open_batch(7, 3).is_none());
    assert_eq!(a.settle_batch(4_000, 9, 1).unwrap_err(), AggregationError::AggregationBatchAlreadySettled);
    // the next tip opens a new batch
    let ((batch3, _), _) = a.queue_tip(6_000, 2, 3, 7, 1).unwrap();
    assert_eq!(batch3, 2);
}

#[test]
fn cancelled_tip_is_refunded_and_excluded() {
    let mut a = aggregator();
    a.queue_tip(0, 2, 3, 7, 500).unwrap();
    a.queue_tip(0, 4, 3, 7, 700).unwrap();
    assert_eq!(a.cancel_queued_tip(4, 1, 0).unwrap_err(), AggregationError::Unauthorized);
    let refund = a.cancel_queued_tip(2, 1, 0).unwrap();
    assert_eq!((refund.to, refund.amount, refund.from), (2, 500, CONTRACT));
    assert_eq!(a.get_batch(1).unwrap().total_queued, 700);
    assert_eq!(a.cancel_queued_tip(2, 1, 0).unwrap_err(), AggregationError::AggregationTipAlreadyRefunded);
    let res = a.settle_batch(3_600, 9, 1).unwrap();
    assert_eq!(res.tip_count, 1);
    assert_eq!(res.creator_amount + res.fee_amount, 700);
}

#[test]
fn all_refunded_batch_is_refused() {
    let mut a = aggregator();
    a.queue_tip(0, 2, 3, 7, 500).unwrap();
    a.cancel_queued_tip(2, 1, 0).unwrap();
    assert_eq!(a.settle_batch(3_600, 9, 1).unwrap_err(), AggregationError::AggregationBatchEmpty);
    assert_eq!(a.get_batch(1).unwrap().status, BatchStatus::Open);
}

#[test]
fn admin_cancels_batch_and_refunds_everyone() {
    let mut a = aggregator();
    a.queue_tip(0, 2, 3, 7, 500).unwrap();
    a.queue_tip(0, 4, 3, 7, 700).unwrap();
    a.cancel_queued_tip(2, 1, 0).unwrap();
    assert_eq!(a.cancel_batch(10, 2, 1).unwrap_err(), AggregationError::Unauthorized);
    let (count, refunds) = a.cancel_batch(10, 1, 1).unwrap();
    assert_eq!(count, 1);
    assert_eq!(refunds.len(), 1);
    assert_eq!((refunds[0].to, refunds[0].amount), (4, 700));
    assert!(a.get_queued_tip(1, 1).unwrap().refunded);
    assert_eq!(a.get_batch(1).unwrap().closed_at, Some(10));
}

#[test]
fn full_batch_refuses_more_tips() {
    let mut a = aggregator();
    let mut c = a.get_config();
    c.max_batch_size = 1;
    a.set_config(c);
    a.queue_tip(0, 2, 3, 7, 1).unwrap();
    assert_eq!(a.queue_tip(0, 2, 3, 7, 1).unwrap_err(), AggregationError::AggregationBatchFull);
}

fn mm_register(m: &mut MarketMaking, maker: u64, spread: u32, base: i128, quote: i128, max: i128) -> u64 {
    m.register_maker(0, maker, 20, 21, spread, base, quote, max).unwrap().0
}

#[test]
fn test_register_maker_and_get_quote() {
    let mut m = MarketMaking::new(CONTRACT);
    let id = mm_register(&mut m, 1, 100, 500_000, 500_000, 100_000);
    let mm = m.get_maker(id).unwrap();
    assert_eq!(mm.spread_bps, 100);
    assert_eq!(mm.base_inventory, 500_000);
    assert_eq!(mm.quote_inventory, 500_000);
    assert_eq!(mm.status, MakerStatus::Active);
    let q = m.get_quote(0, id, 1_000_000).unwrap();
    assert_eq!(q.mid_price, 1_000_000);
    assert_eq!(q.bid_price, 995_000);
    assert_eq!(q.ask_price, 1_005_000);
}

#[test]
fn test_buy_trade() {
    let mut m = MarketMaking::new(CONTRACT);
    let id = mm_register(&mut m, 1, 100, 1_000_000, 2_000_000, 500_000);
    let (res, ts) = m.execute_buy(3, 9, id, 100_000, 1_000_000, 200_000).unwrap();
    assert_eq!(res.base_amount, 100_000);
    assert_eq!(res.quote_amount, 100_600);
    assert_eq!(res.fee_amount, 100);
    assert_eq!(ts[1].to, 9);
    assert_eq!(ts[1].amount, 100_000);
    let mm = m.get_maker(id).unwrap();
    assert_eq!(mm.base_inventory, 1_000_000 - 100_000);
    assert!(mm.fees_earned > 0);
    assert_eq!(mm.trade_count, 1);
}

#[test]
fn test_sell_trade() {
    let mut m = MarketMaking::new(CONTRACT);
    let id = mm_register(&mut m, 1, 100, 1_000_000, 2_000_000, 500_000);
    let (res, ts) = m.execute_sell(3, 9, id, 100_000, 1_000_000, 0).unwrap();
    assert_eq!(res.base_amount, 100_000);
    // bid 995 000: gross 99 500, fee 99, net 99 401
    assert_eq!(res.quote_amount, 99_401);
    assert_eq!(ts[0].from, 9);
    let mm = m.get_maker(id).unwrap();
    assert_eq!(mm.base_inventory, 1_000_000 + 100_000);
    assert_eq!(mm.trade_count, 1);
}

#[test]
fn test_deposit_and_withdraw_inventory() {
    let mut m = MarketMaking::new(CONTRACT);
    let id = mm_register(&mut m, 1, 50, 500_000, 500_000, 100_000);
    m.deposit_inventory(1, 1, id, 200_000, 200_000).unwrap();
    let mm = m.get_maker(id).unwrap();
    assert_eq!((mm.base_inventory, mm.quote_inventory), (700_000, 700_000));
    m.withdraw_inventory(2, 1, id, 100_000, 100_000).unwrap();
    let mm = m.get_maker(id).unwrap();
    assert_eq!((mm.base_inventory, mm.quote_inventory), (600_000, 600_000));
    assert_eq!(m.withdraw_inventory(2, 2, id, 1, 1).unwrap_err(), MarketMakingError::Unauthorized);
}

#[test]
fn test_update_spread() {
    let mut m = MarketMaking::new(CONTRACT);
    let id = mm_register(&mut m, 1, 100, 500_000, 500_000, 100_000);
    m.update_spread(1, 1, id, 200).unwrap();
    assert_eq!(m.get_maker(id).unwrap().spread_bps, 200);
    assert_eq!(m.update_spread(1, 1, id, 1_001).unwrap_err(), MarketMakingError::InvalidSpread);
}

#[test]
fn test_pause_and_resume_maker() {
    let mut m = MarketMaking::new(CONTRACT);
    let id = mm_register(&mut m, 1, 100, 500_000, 500_000, 100_000);
    m.set_maker_status(1, 1, id, false).unwrap();
    assert_eq!(m.get_maker(id).unwrap().status, MakerStatus::Paused);
    assert_eq!(m.get_quote(1, id, 1_000).unwrap_err(), MarketMakingError::MakerNotActive);
    m.set_maker_status(1, 1, id, true).unwrap();
    assert_eq!(m.get_maker(id).unwrap().status, MakerStatus::Active);
}

#[test]
fn test_close_maker_returns_inventory() {
    let mut m = MarketMaking::new(CONTRACT);
    let id = mm_register(&mut m, 1, 100, 500_000, 500_000, 100_000);
    let ts = m.close_maker(1, 1, id).unwrap();
    let mm = m.get_maker(id).unwrap();
    assert_eq!(mm.status, MakerStatus::Closed);
    assert_eq!((mm.base_inventory, mm.quote_inventory), (0, 0));
    assert_eq!(ts.iter().map(|t| t.amount).sum::<i128>(), 1_000_000);
    assert!(!m.get_active_makers().contains(&id));
    assert_eq!(m.close_maker(1, 1, id).unwrap_err(), MarketMakingError::MakerNotActive);
}

#[test]
fn test_get_pair_makers() {
    let mut m = MarketMaking::new(CONTRACT);
    let id1 = mm_register(&mut m, 1, 100, 500_000, 500_000, 100_000);
    let id2 = mm_register(&mut m, 2, 200, 500_000, 500_000, 100_000);
    let pm = m.get_pair_makers(20, 21);
    assert!(pm.contains(&id1) && pm.contains(&id2));
    assert_eq!(m.get_owner_makers(2), vec![id2]);
}

#[test]
fn market_maker_registration_errors() {
    let mut m = MarketMaking::new(CONTRACT);
    assert_eq!(m.register_maker(0, 1, 20, 20, 100, 1, 1, 1).unwrap_err(), MarketMakingError::IdenticalTokens);
    assert_eq!(m.register_maker(0, 1, 20, 21, 0, 1, 1, 1).unwrap_err(), MarketMakingError::InvalidSpread);
    assert_eq!(m.register_maker(0, 1, 20, 21, 10, 0, 0, 1).unwrap_err(), MarketMakingError::InvalidInventory);
    assert_eq!(m.register_maker(0, 1, 20, 21, 10, 1, 0, 0).unwrap_err(), MarketMakingError::InvalidTradeSize);
    assert_eq!(MarketMakingError::IdenticalTokens.code(), 810);
}

#[test]
fn test_place_and_cancel_stop_loss() {
    let mut s = StopLoss::new(CONTRACT);
    let (id, t) = s.place_order(0, 1, 20, 1_000, 900_000, 0, 0, StopOrderKind::StopLoss, 1_000_000).unwrap();
    assert_eq!((t.from, t.to, t.amount), (1, CONTRACT, 1_000));
    assert_eq!(s.get_active_orders(), vec![id]);
    assert_eq!(s.cancel_order(2, id).unwrap_err(), StopLossError::Unauthorized);
    let refund = s.cancel_order(1, id).unwrap();
    assert_eq!((refund.to, refund.amount), (1, 1_000));
    assert_eq!(s.get_order(id).unwrap().status, StopOrderStatus::Cancelled);
    assert!(s.get_active_orders().is_empty());
}

#[test]
fn test_stop_loss_trigger_and_execute() {
    let mut s = StopLoss::new(CONTRACT);
    let (id, _) = s.place_order(0, 1, 20, 1_000, 900_000, 0, 0, StopOrderKind::StopLoss, 1_000_000).unwrap();
    assert_eq!(s.check_trigger(5, id, 950_000), Ok(false));
    assert_eq!(s.execute_order(6, 3, id, 0).unwrap_err(), StopLossError::OrderNotActive);
    assert_eq!(s.check_trigger(7, id, 900_000), Ok(true));
    assert_eq!(s.get_order(id).unwrap().triggered_at, 7);
    let t = s.execute_order(8, 3, id, 890_000).unwrap();
    assert_eq!((t.to, t.amount), (1, 1_000));
    assert_eq!(s.get_order(id).unwrap().status, StopOrderStatus::Executed);
}

#[test]
fn test_stop_limit_requires_limit_price() {
    let mut s = StopLoss::new(CONTRACT);
    assert_eq!(
        s.place_order(0, 1, 20, 1_000, 900_000, 0, 0, StopOrderKind::StopLimit, 0).unwrap_err(),
        StopLossError::InvalidLimitPrice
    );
    let (id, _) = s.place_order(0, 1, 20, 1_000, 900_000, 880_000, 0, StopOrderKind::StopLimit, 0).unwrap();
    s.check_trigger(1, id, 850_000).unwrap();
    assert_eq!(s.execute_order(2, 3, id, 870_000).unwrap_err(), StopLossError::LimitPriceNotMet);
    assert!(s.execute_order(2, 3, id, 880_000).is_ok());
}

#[test]
fn test_trailing_stop_adjusts_with_price() {
    let mut s = StopLoss::new(CONTRACT);
    assert_eq!(
        s.place_order(0, 1, 20, 1_000, 900_000, 0, 0, StopOrderKind::TrailingStop, 1_000_000).unwrap_err(),
        StopLossError::InvalidTrailAmount
    );
    let (id, _) = s.place_order(0, 1, 20, 1_000, 900_000, 0, 100_000, StopOrderKind::TrailingStop, 1_000_000).unwrap();
    s.update_price(id, 1_200_000).unwrap();
    let o = s.get_order(id).unwrap();
    assert_eq!((o.peak_price, o.stop_price), (1_200_000, 1_100_000));
    // a lower price never lowers the stop
    s.update_price(id, 1_150_000).unwrap();
    assert_eq!(s.get_order(id).unwrap().stop_price, 1_100_000);
    assert_eq!(s.check_trigger(3, id, 1_100_000), Ok(true));
}

#[test]
fn test_get_owner_and_active_orders() {
    let mut s = StopLoss::new(CONTRACT);
    let (a, _) = s.place_order(0, 1, 20, 10, 5, 0, 0, StopOrderKind::StopLoss, 0).unwrap();
    let (b, _) = s.place_order(0, 2, 20, 10, 5, 0, 0, StopOrderKind::StopLoss, 0).unwrap();
    let (c, _) = s.place_order(0, 1, 20, 10, 5, 0, 0, StopOrderKind::StopLoss, 0).unwrap();
    assert_eq!(s.get_owner_orders(1), vec![a, c]);
    assert_eq!(s.get_active_orders(), vec![a, b, c]);
    assert_eq!(s.get_order(a).unwrap().peak_price, 5);
    assert_eq!(StopLossError::OrderNotFound.code(), 700);
}

#[test]
fn blacklist_and_whitelist_precedence() {
    let mut l = AccessLists::new(Some(1));
    assert_eq!(l.add_to_blacklist(0, 2, ListScope::Global, 9, String::from("spam"), 0), Err(AccessListError::Unauthorized));
    l.add_to_blacklist(0, 1, ListScope::Global, 9, String::from("spam"), 0).unwrap();
    assert!(l.is_blacklisted(100, ListScope::Global, 9));
    assert_eq!(l.check_allowed(100, 5, 9), Err(AccessListError::Blacklisted));
    assert!(!l.is_allowed(100, 5, 9));
    assert_eq!(l.get_block_entry(ListScope::Global, 9).unwrap().reason, "spam");
    l.remove_from_blacklist(1, ListScope::Global, 9).unwrap();
    assert!(l.is_allowed(100, 5, 9));
    assert_eq!(l.remove_from_blacklist(1, ListScope::Global, 9), Err(AccessListError::EntryNotFound));
}

#[test]
fn temporary_block_expires() {
    let mut l = AccessLists::new(None);
    assert_eq!(l.add_to_blacklist(0, 1, ListScope::Global, 9, String::new(), 0), Err(AccessListError::NoAdmin));
    l.add_to_blacklist(100, 5, ListScope::Creator(5), 9, String::from("t"), 50).unwrap();
    assert!(!l.is_allowed(120, 5, 9));
    assert!(l.is_allowed(150, 5, 9));
    assert!(l.is_allowed(120, 6, 9));
    assert_eq!(
        l.add_to_blacklist(u64::MAX, 5, ListScope::Creator(5), 9, String::new(), 1),
        Err(AccessListError::InvalidDuration)
    );
    assert_eq!(l.get_blacklist(ListScope::Creator(5)), vec![9]);
}

#[test]
fn whitelist_only_mode() {
    let mut l = AccessLists::new(Some(1));
    l.set_whitelist_mode(5, ListScope::Creator(5), true).unwrap();
    assert_eq!(l.check_allowed(0, 5, 9), Err(AccessListError::NotWhitelisted));
    l.add_to_whitelist(5, ListScope::Creator(5), 9).unwrap();
    assert_eq!(l.check_allowed(0, 5, 9), Ok(()));
    assert_eq!(l.get_whitelist(ListScope::Creator(5)), vec![9]);
    l.set_whitelist_mode(1, ListScope::Global, true).unwrap();
    assert_eq!(l.check_allowed(0, 5, 9), Err(AccessListError::NotWhitelisted));
    l.add_to_whitelist(1, ListScope::Global, 9).unwrap();
    assert!(l.is_allowed(0, 5, 9));
    l.remove_from_whitelist(5, ListScope::Creator(5), 9).unwrap();
    assert!(!l.is_allowed(0, 5, 9));
    assert_eq!(AccessListError::EntryNotFound.code(), 905);
}
