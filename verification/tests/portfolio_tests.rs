use tipjar::portfolio::{validate_weights, AssetAdjustment, AssetTarget, PortfolioError, Portfolios};

fn asset(token: u64, bps: u32) -> AssetTarget {
    AssetTarget { token, target_bps: bps, min_bps: 0, max_bps: 10_000 }
}

#[test]
fn test_portfolio_error_uniqueness() {
    assert_ne!(PortfolioError::PortfolioNotFound.code(), PortfolioError::InvalidWeights.code());
    assert_ne!(PortfolioError::RebalanceTooFrequent.code(), PortfolioError::DriftWithinTolerance.code());
    assert_ne!(PortfolioError::Unauthorized.code(), PortfolioError::EmptyPortfolio.code());
}

#[test]
fn weights_must_sum_to_full() {
    assert_eq!(validate_weights(&vec![asset(1, 6000), asset(2, 4000)]), Ok(()));
    assert_eq!(validate_weights(&vec![asset(1, 6000)]), Err(PortfolioError::InvalidWeights));
    assert_eq!(validate_weights(&vec![asset(1, u32::MAX), asset(2, 5)]), Err(PortfolioError::InvalidWeights));
}

#[test]
fn create_and_rebalance() {
    let mut p = Portfolios::new();
    assert_eq!(p.create_portfolio(0, 1, vec![], 100, 10, 30), Err(PortfolioError::EmptyPortfolio));
    let id = p.create_portfolio(0, 1, vec![asset(1, 5000), asset(2, 5000)], 100, 10, 30).unwrap();
    assert_eq!(id, 0);
    assert_eq!(p.get_owner_portfolios(1), vec![0]);

    let adj = p.calculate_optimal_allocations(id, &vec![800, 200]).unwrap();
    assert_eq!(adj, vec![
        AssetAdjustment { token: 1, delta: -300, tx_cost: 0 },
        AssetAdjustment { token: 2, delta: 300, tx_cost: 0 },
    ]);
    assert_eq!(p.needs_rebalance(5, id, &vec![800, 200]), Err(PortfolioError::RebalanceTooFrequent));
    assert_eq!(p.needs_rebalance(10, id, &vec![800, 200]), Ok(true));
    assert_eq!(p.needs_rebalance(10, id, &vec![505, 495]), Ok(false));
    assert_eq!(p.needs_rebalance(10, id, &vec![0, 0]), Ok(false));

    assert_eq!(p.execute_rebalance(20, 9, id, &adj), Err(PortfolioError::Unauthorized));
    let entry = p.execute_rebalance(20, 1, id, &adj).unwrap();
    assert_eq!(entry.total_adjusted, 600);
    assert_eq!(entry.assets_adjusted, 2);
    assert_eq!(entry.entry_index, 0);
    assert_eq!(p.get_history_count(id), 1);
    assert_eq!(p.get_portfolio(id).unwrap().rebalance_count, 1);
    assert_eq!(p.get_portfolio(id).unwrap().last_rebalance, 20);
}

#[test]
fn transaction_costs_are_charged() {
    let mut p = Portfolios::new();
    let id = p.create_portfolio(0, 1, vec![asset(1, 10_000)], 0, 0, 100).unwrap();
    let adj = p.calculate_optimal_allocations(id, &vec![0, 20_000]).unwrap();
    // total 20 000, target 20 000, held 0: buy 20 000 at 1%
    assert_eq!(adj, vec![AssetAdjustment { token: 1, delta: 20_000, tx_cost: 200 }]);
    assert_eq!(p.calculate_optimal_allocations(7, &vec![]), Err(PortfolioError::PortfolioNotFound));
}

const OWNER: u64 = 1;

fn two_asset_targets() -> Vec<AssetTarget> {
    vec![
        AssetTarget { token: 11, target_bps: 6000, min_bps: 5000, max_bps: 7000 },
        AssetTarget { token: 12, target_bps: 4000, min_bps: 3000, max_bps: 5000 },
    ]
}

#[test]
fn test_create_portfolio_success() {
    let mut p = Portfolios::new();
    let pid = p
        .create_portfolio(0, OWNER, two_asset_targets(), 200, 86_400, 10)
        .expect("create_portfolio should succeed");

    let pf = p.get_portfolio(pid).expect("portfolio should exist");
    assert_eq!(pf.portfolio_id, pid);
    assert_eq!(pf.owner, OWNER);
    assert_eq!(pf.assets.len(), 2);
    assert!(pf.active);
    assert_eq!(pf.rebalance_count, 0);
}

#[test]
#[should_panic]
fn test_create_portfolio_invalid_weights_panics() {
    let mut p = Portfolios::new();
    // Weights sum to 9000, not 10000.
    let assets = vec![AssetTarget { token: 11, target_bps: 9000, min_bps: 0, max_bps: 10000 }];
    p.create_portfolio(0, OWNER, assets, 200, 86_400, 10).unwrap();
}

#[test]
#[should_panic]
fn test_create_portfolio_empty_assets_panics() {
    let mut p = Portfolios::new();
    p.create_portfolio(0, OWNER, Vec::new(), 200, 86_400, 10).unwrap();
}

#[test]
fn test_owner_portfolios_tracked() {
    let mut p = Portfolios::new();
    p.create_portfolio(0, OWNER, two_asset_targets(), 200, 86_400, 10).unwrap();
    p.create_portfolio(0, OWNER, two_asset_targets(), 300, 3_600, 5).unwrap();
    assert_eq!(p.get_owner_portfolios(OWNER).len(), 2);
}

#[test]
fn test_calculate_optimal_allocations_balanced() {
    let mut p = Portfolios::new();
    let pid = p.create_portfolio(0, OWNER, two_asset_targets(), 200, 86_400, 0).unwrap();

    // 600 / 400 is already on target.
    let adjustments = p.calculate_optimal_allocations(pid, &vec![600i128, 400i128]).unwrap();
    assert_eq!(adjustments.len(), 2);
    assert_eq!(adjustments[0].delta, 0);
    assert_eq!(adjustments[1].delta, 0);
}

#[test]
fn test_calculate_optimal_allocations_drift() {
    let mut p = Portfolios::new();
    let pid = p.create_portfolio(0, OWNER, two_asset_targets(), 200, 86_400, 0).unwrap();

    // 500 / 500 against a 600 / 400 target.
    let adjustments = p.calculate_optimal_allocations(pid, &vec![500i128, 500i128]).unwrap();
    assert_eq!(adjustments[0].delta, 100);
    assert_eq!(adjustments[1].delta, -100);
}

#[test]
fn test_calculate_optimal_allocations_with_tx_cost() {
    let mut p = Portfolios::new();
    // 1% transaction cost.
    let pid = p.create_portfolio(0, OWNER, two_asset_targets(), 200, 86_400, 100).unwrap();

    let adjustments = p.calculate_optimal_allocations(pid, &vec![500i128, 500i128]).unwrap();
    assert_eq!(adjustments[0].tx_cost, 1);
    assert_eq!(adjustments[1].tx_cost, 1);
}

#[test]
fn test_needs_rebalance_too_frequent() {
    let mut p = Portfolios::new();
    let pid = p.create_portfolio(0, OWNER, two_asset_targets(), 200, 86_400, 0).unwrap();
    let result = p.needs_rebalance(0, pid, &vec![500i128, 500i128]);
    assert!(matches!(result, Err(PortfolioError::RebalanceTooFrequent)));
}

#[test]
fn test_needs_rebalance_after_frequency_elapsed() {
    let mut p = Portfolios::new();
    let pid = p.create_portfolio(0, OWNER, two_asset_targets(), 200, 0, 0).unwrap();
    // 10% drift against a 2% tolerance.
    assert_eq!(p.needs_rebalance(0, pid, &vec![500i128, 500i128]), Ok(true));
}

#[test]
fn test_needs_rebalance_within_tolerance() {
    let mut p = Portfolios::new();
    let pid = p.create_portfolio(0, OWNER, two_asset_targets(), 2000, 0, 0).unwrap();
    assert_eq!(p.needs_rebalance(0, pid, &vec![590i128, 410i128]), Ok(false));
}

#[test]
fn test_execute_rebalance_records_history() {
    let mut p = Portfolios::new();
    let pid = p.create_portfolio(0, OWNER, two_asset_targets(), 200, 0, 0).unwrap();

    let adjustments = p.calculate_optimal_allocations(pid, &vec![500i128, 500i128]).unwrap();
    let entry = p
        .execute_rebalance(0, OWNER, pid, &adjustments)
        .expect("execute_rebalance should succeed");

    assert_eq!(entry.portfolio_id, pid);
    assert_eq!(entry.assets_adjusted, 2);
    assert_eq!(entry.total_adjusted, 200);

    assert_eq!(p.get_portfolio(pid).unwrap().rebalance_count, 1);
    assert_eq!(p.get_history_count(pid), 1);
}

#[test]
fn test_execute_rebalance_history_retrievable() {
    let mut p = Portfolios::new();
    let pid = p.create_portfolio(0, OWNER, two_asset_targets(), 200, 0, 0).unwrap();

    let adjustments = p.calculate_optimal_allocations(pid, &vec![500i128, 500i128]).unwrap();
    p.execute_rebalance(0, OWNER, pid, &adjustments).unwrap();

    let entry = p.get_history_entry(pid, 0).expect("history entry should exist");
    assert_eq!(entry.entry_index, 0);
    assert_eq!(entry.portfolio_id, pid);
}

#[test]
#[should_panic]
fn test_execute_rebalance_wrong_owner_panics() {
    let mut p = Portfolios::new();
    let pid = p.create_portfolio(0, OWNER, two_asset_targets(), 200, 0, 0).unwrap();
    let adjustments: Vec<AssetAdjustment> = Vec::new();
    p.execute_rebalance(0, 2, pid, &adjustments).unwrap();
}

#[test]
fn test_get_nonexistent_portfolio_returns_none() {
    let p = Portfolios::new();
    assert!(p.get_portfolio(999).is_none());
}

#[test]
fn test_get_history_entry_nonexistent_returns_none() {
    let p = Portfolios::new();
    assert!(p.get_history_entry(0, 0).is_none());
}

#[test]
fn test_history_count_zero_initially() {
    let mut p = Portfolios::new();
    let pid = p.create_portfolio(0, OWNER, two_asset_targets(), 200, 86_400, 0).unwrap();
    assert_eq!(p.get_history_count(pid), 0);
}
