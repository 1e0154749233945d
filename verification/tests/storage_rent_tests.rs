use tipjar::rent_model::{
    recommendations, run_simulation, ActivityKind, EntryState, MixedModel, Recommendation, SimSummary, SimulationState,
    LEDGER_BUMP,
};

#[test]
fn test_small_scenario() {
    let (snaps, summary) = run_simulation(10, 2, 1, ActivityKind::Dormant);
    assert!(!snaps.is_empty());
    assert_eq!(summary.total_pairs, 20);
    assert_eq!(snaps[0].ledger, 0);
    assert_eq!(snaps[0].active_entries, 20);
}

#[test]
fn test_dormant_archival() {
    let (snaps, summary) = run_simulation(10, 2, 1, ActivityKind::Dormant);
    assert_eq!(summary.final_archived_entries, 20);
    assert_eq!(summary.final_active_entries, 0);
    assert!(snaps[1..].iter().all(|s| s.active_entries == 0));
}

#[test]
fn test_active_no_archival() {
    let (snaps, summary) = run_simulation(10, 2, 1, ActivityKind::Active);
    assert!(snaps.iter().all(|s| s.active_entries == 20));
    assert_eq!(summary.final_active_entries, 20);
}

#[test]
fn test_mixed_50_50_split() {
    let (_, summary) = run_simulation(10, 2, 1, ActivityKind::Mixed);
    assert_eq!(summary.final_active_entries, 10);
    assert_eq!(summary.final_archived_entries, 10);
    assert_eq!(summary.peak_active_entries, 20);
}

#[test]
fn test_cost_monotonicity() {
    let (snaps, summary) = run_simulation(5, 3, 2, ActivityKind::Mixed);
    for w in snaps.windows(2) {
        assert!(w[0].cumulative_cost_stroops <= w[1].cumulative_cost_stroops);
    }
    assert!(snaps.iter().all(|s| s.period_cost_stroops >= 0));
    assert_eq!(summary.total_cost_stroops, snaps.last().unwrap().cumulative_cost_stroops);
}

#[test]
fn test_ttl_decay() {
    let mut st = SimulationState::new(1);
    st.tip(0);
    assert_eq!(st.entries[0], EntryState::Active { ttl_remaining: LEDGER_BUMP });
    st.advance(1000);
    assert_eq!(st.entries[0], EntryState::Active { ttl_remaining: LEDGER_BUMP - 1000 });
    st.advance(LEDGER_BUMP);
    assert_eq!(st.entries[0], EntryState::Archived);
    assert_eq!(st.current_ledger, 1000 + LEDGER_BUMP);
}

#[test]
fn tip_costs_match_the_model() {
    let mut st = SimulationState::new(1);
    st.tip(0);
    assert_eq!(st.cumulative_cost, 2 * 10_000 + 2 * 12_096);
    st.tip(0);
    assert_eq!(st.cumulative_cost, 2 * 10_000 + 4 * 12_096);
    assert_eq!(st.count_entries(), (1, 0));
}

#[test]
fn mixed_model_splits_in_half() {
    assert_eq!(MixedModel::new(21).active_cutoff, 10);
}

#[test]
fn dormant_costs_exactly_one_creation_per_pair() {
    let (_, summary) = run_simulation(4, 1, 1, ActivityKind::Dormant);
    assert_eq!(summary.total_cost_stroops, 4 * (2 * 10_000 + 2 * 12_096));
}

#[test]
fn recommendations_follow_the_summary() {
    let s = SimSummary {
        total_pairs: 10,
        peak_active_entries: 10,
        final_active_entries: 0,
        final_archived_entries: 10,
        total_cost_stroops: 5,
    };
    assert_eq!(
        recommendations(&s, ActivityKind::Dormant, false),
        vec![
            Recommendation::Archived,
            Recommendation::TotalCost,
            Recommendation::DormantOutlook,
            Recommendation::OperationalPlan,
            Recommendation::ReadPathTtl,
        ]
    );
    let t = SimSummary { final_active_entries: 10, final_archived_entries: 0, total_cost_stroops: 0, ..s };
    assert_eq!(
        recommendations(&t, ActivityKind::Mixed, true),
        vec![
            Recommendation::StillActive,
            Recommendation::MixedOutlook,
            Recommendation::OperationalPlan,
            Recommendation::ReadPathTtl,
            Recommendation::ConsiderBatching,
        ]
    );
}

#[test]
fn scenarios_match_their_closed_form() {
    // one year: 6 307 200 ledgers, so 12 snapshots after the first
    let fresh: i128 = 44_192;
    let (snaps, summary) = run_simulation(2, 3, 1, ActivityKind::Dormant);
    assert_eq!(snaps.len(), 13);
    assert_eq!(summary.total_cost_stroops, 6 * fresh);
    assert_eq!((summary.final_active_entries, summary.final_archived_entries), (0, 6));
    let (snaps, summary) = run_simulation(2, 3, 1, ActivityKind::Active);
    assert_eq!(snaps.len(), 13);
    assert_eq!(summary.total_cost_stroops, 6 * fresh + 12 * 6 * fresh);
    assert_eq!((summary.final_active_entries, summary.final_archived_entries), (6, 0));
    let (_, summary) = run_simulation(2, 3, 1, ActivityKind::Mixed);
    assert_eq!(summary.total_cost_stroops, 6 * fresh + 12 * 3 * fresh);
    assert_eq!((summary.final_active_entries, summary.final_archived_entries), (3, 3));
    for s in &snaps[1..] {
        assert_eq!(s.period_cost_stroops, 6 * fresh);
    }
}
