//! Tests of the shared-access boundary and of the evolution layer's pure
//! functions.

use homeostat::engine::{EngineError, HomeostaticConfig, HomeostaticEngine};
use homeostat::evolution::{
    calculate_learning_weight, intelligence_level_after, InteractionType, IntelligenceLevel,
};
use homeostat::shared::SharedEngine;
use homeostat::zone::ZoneState;

fn shared_five_zones() -> SharedEngine {
    let config = HomeostaticConfig {
        target_calmness: 500_000,
        learning_rate: 100_000,
        zones: 5,
    };
    let seeds: Vec<u64> = vec![300_000, 600_000, 200_000, 800_000, 400_000];
    SharedEngine::new(HomeostaticEngine::with_activities(config, &seeds))
}

/// Recomputes the aggregate metrics from the zones carried in a snapshot
/// and checks the snapshot's own metrics against them: a snapshot taken
/// under the lock reflects one instant, so they must always agree.
fn assert_snapshot_consistent(state: &homeostat::engine::SystemState, target: u64) {
    let n = state.zones.len() as u64;
    let sum: u64 = state.zones.iter().map(|z| z.activity).sum();
    let average = sum / n;
    let balance = average.abs_diff(target);
    let calm = state
        .zones
        .iter()
        .filter(|z| z.state == ZoneState::Calm)
        .count() as u64;
    let health = calm * 1_000_000 / n;
    assert_eq!(state.metrics.total_zones as u64, n);
    assert_eq!(state.metrics.average_activity, average);
    assert_eq!(state.metrics.homeostatic_balance, balance);
    assert_eq!(state.metrics.system_health, health);
    for zone in &state.zones {
        assert_eq!(zone.state, ZoneState::from_activity(zone.activity));
    }
}

#[test]
fn shared_tick_and_snapshot() {
    let shared = shared_five_zones();
    assert_eq!(shared.zone_count(), 5);
    shared.tick();
    let state = shared.snapshot();
    assert_eq!(state.zones.len(), 5);
    // The tick through the boundary is the same deterministic law.
    assert_eq!(state.zones[0].activity, 320_000);
    assert_eq!(state.zones[0].state, ZoneState::Calm);
    assert_snapshot_consistent(&state, 500_000);
}

#[test]
fn shared_influence_applied() {
    let shared = shared_five_zones();
    assert_eq!(shared.apply_influence(0, 5_000_000), Ok(()));
    let state = shared.snapshot();
    assert_eq!(state.zones[0].activity, 1_000_000);
    assert_eq!(state.zones[0].state, ZoneState::Critical);
    assert_snapshot_consistent(&state, 500_000);
}

#[test]
fn shared_influence_out_of_range() {
    let shared = shared_five_zones();
    let before = shared.snapshot();
    assert_eq!(
        shared.apply_influence(5, 100_000),
        Err(EngineError::OutOfRange)
    );
    let after = shared.snapshot();
    for (b, a) in before.zones.iter().zip(after.zones.iter()) {
        assert_eq!(b.activity, a.activity);
    }
}

#[test]
fn snapshots_consistent_under_interleaving() {
    // Interleave ticks, influences and snapshots; every snapshot must be
    // internally consistent — derived state never mixed across updates.
    let shared = shared_five_zones();
    for step in 0..50u64 {
        match step % 3 {
            0 => shared.tick(),
            1 => {
                let delta = if step % 2 == 0 { 400_000 } else { -400_000 };
                shared.apply_influence((step % 5) as usize, delta).unwrap();
            }
            _ => {}
        }
        let state = shared.snapshot();
        assert_snapshot_consistent(&state, 500_000);
    }
}

#[test]
fn intelligence_levels_by_count() {
    assert_eq!(intelligence_level_after(0), IntelligenceLevel::Beginner);
    assert_eq!(intelligence_level_after(4), IntelligenceLevel::Beginner);
    assert_eq!(intelligence_level_after(5), IntelligenceLevel::Intermediate);
    assert_eq!(intelligence_level_after(9), IntelligenceLevel::Intermediate);
    assert_eq!(intelligence_level_after(10), IntelligenceLevel::Advanced);
    assert_eq!(intelligence_level_after(19), IntelligenceLevel::Advanced);
    assert_eq!(intelligence_level_after(20), IntelligenceLevel::Expert);
    assert_eq!(intelligence_level_after(49), IntelligenceLevel::Expert);
    assert_eq!(intelligence_level_after(50), IntelligenceLevel::Master);
    assert_eq!(intelligence_level_after(99), IntelligenceLevel::Master);
    assert_eq!(intelligence_level_after(100), IntelligenceLevel::Autonomous);
}

#[test]
fn learning_weights_by_kind() {
    assert_eq!(
        calculate_learning_weight(&InteractionType::ZoneAnalysis),
        800_000
    );
    assert_eq!(
        calculate_learning_weight(&InteractionType::BioCoreRecommendation),
        900_000
    );
    assert_eq!(
        calculate_learning_weight(&InteractionType::SystemOptimization),
        1_000_000
    );
    assert_eq!(
        calculate_learning_weight(&InteractionType::StrategicPlanning),
        950_000
    );
    assert_eq!(
        calculate_learning_weight(&InteractionType::GeneralInquiry),
        500_000
    );
    assert_eq!(
        calculate_learning_weight(&InteractionType::EmergencyResponse),
        1_000_000
    );
}
