//! Tests of the regulation engine itself: the control law, clamping,
//! classification, influence and the aggregate metrics.

use homeostat::engine::{
    EngineError, HomeostaticConfig, HomeostaticEngine, BioCoreEffect,
};
use homeostat::zone::{Zone, ZoneState, DEFAULT_TARGET, SCALE};

fn five_zone_engine() -> HomeostaticEngine {
    let config = HomeostaticConfig {
        target_calmness: 500_000,
        learning_rate: 100_000,
        zones: 5,
    };
    let seeds: Vec<u64> = vec![300_000, 600_000, 200_000, 800_000, 400_000];
    HomeostaticEngine::with_activities(config, &seeds)
}

#[test]
fn end_to_end_five_zones() {
    // Five zones seeded at [0.3, 0.6, 0.2, 0.8, 0.4], target 0.5, eta 0.1.
    let mut engine = five_zone_engine();
    engine.update();

    // Zone 0: smoothed 0.97*0.3 + 0.03*0.3 = 0.3, error 0.2, adjustment
    // 0.02, activity 0.32, calm.
    assert_eq!(engine.ema[0], 300_000);
    assert_eq!(engine.zones[0].activity, 320_000);
    assert_eq!(engine.zones[0].state, ZoneState::Calm);

    // The other zones follow the same law exactly.
    assert_eq!(engine.zones[1].activity, 590_000);
    assert_eq!(engine.zones[1].state, ZoneState::Overstimulated);
    assert_eq!(engine.zones[2].activity, 230_000);
    assert_eq!(engine.zones[2].state, ZoneState::Calm);
    assert_eq!(engine.zones[3].activity, 770_000);
    assert_eq!(engine.zones[3].state, ZoneState::Emergent);
    assert_eq!(engine.zones[4].activity, 410_000);
    assert_eq!(engine.zones[4].state, ZoneState::Overstimulated);

    // Smoothing accumulators started equal to the activities, so one tick
    // leaves them unchanged.
    assert_eq!(engine.ema, vec![300_000, 600_000, 200_000, 800_000, 400_000]);

    // Metrics over the post-tick zones.
    let metrics = engine.get_system_metrics();
    assert_eq!(metrics.total_zones, 5);
    assert_eq!(metrics.average_activity, 464_000); // 2_320_000 / 5
    assert_eq!(metrics.homeostatic_balance, 36_000);
    assert_eq!(metrics.system_health, 400_000); // 2 calm zones of 5
}

#[test]
fn convergence_toward_target() {
    // From activity 0.9, target 0.5, eta 0.1, repeated ticks descend
    // monotonically while the zone stays above target, and the activity
    // settles within 0.01 of the target.
    let config = HomeostaticConfig {
        target_calmness: 500_000,
        learning_rate: 100_000,
        zones: 1,
    };
    let seeds: Vec<u64> = vec![900_000];
    let mut engine = HomeostaticEngine::with_activities(config, &seeds);

    engine.update();
    // First tick exactly: smoothed stays 0.9, correction 0.1*0.4 = 0.04.
    assert_eq!(engine.zones[0].activity, 860_000);

    let mut prev = engine.zones[0].activity;
    let mut above = true;
    for _ in 0..2000 {
        engine.update();
        let now = engine.zones[0].activity;
        if above && prev >= 500_000 {
            assert!(now <= prev, "ascended while above target: {} -> {}", prev, now);
        }
        if now <= 500_000 {
            above = false;
        }
        assert!(now <= SCALE);
        assert!(engine.ema[0] <= SCALE);
        prev = now;
    }
    let a = engine.zones[0].activity;
    assert!(
        a.abs_diff(500_000) <= 10_000,
        "not settled near target: {}",
        a
    );
}

#[test]
fn influence_bounded() {
    // A delta far beyond the range clamps to exactly 1.0, never above.
    let mut engine = five_zone_engine();
    let r = engine.apply_influence(0, 5_000_000);
    assert_eq!(r, Ok(()));
    assert_eq!(engine.zones[0].activity, 1_000_000);
    assert_eq!(engine.zones[0].state, ZoneState::Critical);
}

#[test]
fn influence_clamps_below() {
    let mut engine = five_zone_engine();
    let r = engine.apply_influence(3, -5_000_000);
    assert_eq!(r, Ok(()));
    assert_eq!(engine.zones[3].activity, 0);
    assert_eq!(engine.zones[3].state, ZoneState::Calm);
}

#[test]
fn influence_extreme_deltas() {
    let mut engine = five_zone_engine();
    assert_eq!(engine.apply_influence(1, i64::MAX), Ok(()));
    assert_eq!(engine.zones[1].activity, 1_000_000);
    assert_eq!(engine.apply_influence(1, i64::MIN), Ok(()));
    assert_eq!(engine.zones[1].activity, 0);
}

#[test]
fn invalid_index_rejected() {
    // An influence at the zone count fails with OutOfRange and leaves
    // every zone untouched.
    let mut engine = five_zone_engine();
    let before: Vec<Zone> = engine.get_zones().clone();
    let ema_before = engine.ema.clone();
    let r = engine.apply_influence(5, 100_000);
    assert_eq!(r, Err(EngineError::OutOfRange));
    assert_eq!(engine.get_zones(), &before);
    assert_eq!(engine.ema, ema_before);
}

#[test]
fn clamping_under_mixed_sequence() {
    // Whatever sequence of ticks and influences runs, activities and
    // smoothing accumulators stay on the unit scale and every stored
    // state matches the classification of its activity.
    let mut engine = five_zone_engine();
    let deltas: Vec<i64> = vec![700_000, -1_500_000, 250_000, -90_000, 2_000_000, -2_000_000];
    for (step, delta) in deltas.iter().enumerate() {
        let zone_id = step % 5;
        engine.apply_influence(zone_id, *delta).unwrap();
        engine.update();
        for zone in engine.get_zones() {
            assert!(zone.activity <= SCALE);
            assert_eq!(zone.state, ZoneState::from_activity(zone.activity));
        }
        for s in engine.ema.iter() {
            assert!(*s <= SCALE);
        }
    }
}

#[test]
fn classification_thresholds() {
    assert_eq!(ZoneState::from_activity(0), ZoneState::Calm);
    assert_eq!(ZoneState::from_activity(399_999), ZoneState::Calm);
    assert_eq!(ZoneState::from_activity(400_000), ZoneState::Overstimulated);
    assert_eq!(ZoneState::from_activity(699_999), ZoneState::Overstimulated);
    assert_eq!(ZoneState::from_activity(700_000), ZoneState::Emergent);
    assert_eq!(ZoneState::from_activity(899_999), ZoneState::Emergent);
    assert_eq!(ZoneState::from_activity(900_000), ZoneState::Critical);
    assert_eq!(ZoneState::from_activity(1_000_000), ZoneState::Critical);
}

#[test]
fn default_config() {
    let config = HomeostaticConfig::default();
    assert_eq!(config.target_calmness, 500_000);
    assert_eq!(config.learning_rate, 20_000);
    assert_eq!(config.zones, 5);
}

#[test]
fn fresh_zone_in_seed_band() {
    let zone = Zone::new(3);
    assert_eq!(zone.id(), 3);
    assert_eq!(zone.target(), DEFAULT_TARGET);
    assert!((200_000..=800_000).contains(&zone.activity()));
    assert_eq!(*zone.state(), ZoneState::from_activity(zone.activity()));
}

#[test]
fn zone_reset_reseeds() {
    let mut zone = Zone::with_activity(7, 950_000, 500_000);
    assert_eq!(zone.state, ZoneState::Critical);
    zone.reset();
    assert_eq!(zone.id, 7);
    assert_eq!(zone.target, 500_000);
    assert!((200_000..=800_000).contains(&zone.activity));
    assert_eq!(zone.state, ZoneState::from_activity(zone.activity));
}

#[test]
fn random_engine_shape() {
    let config = HomeostaticConfig {
        target_calmness: 450_000,
        learning_rate: 50_000,
        zones: 8,
    };
    let engine = HomeostaticEngine::new(config);
    assert_eq!(engine.get_zones().len(), 8);
    assert_eq!(engine.ema.len(), 8);
    for (i, zone) in engine.get_zones().iter().enumerate() {
        assert_eq!(zone.id, i);
        assert_eq!(zone.target, 450_000);
        assert!((200_000..=800_000).contains(&zone.activity));
        assert_eq!(engine.ema[i], zone.activity);
    }
}

#[test]
fn metrics_truncate_toward_zero() {
    let config = HomeostaticConfig {
        target_calmness: 500_000,
        learning_rate: 20_000,
        zones: 3,
    };
    let seeds: Vec<u64> = vec![100, 200, 250];
    let engine = HomeostaticEngine::with_activities(config, &seeds);
    let metrics = engine.get_system_metrics();
    assert_eq!(metrics.average_activity, 183); // 550 / 3, truncated
    assert_eq!(metrics.homeostatic_balance, 499_817);
    // All three zones are calm: health is the full scale.
    assert_eq!(metrics.system_health, 1_000_000);
}

#[test]
fn get_zone_bounds() {
    let engine = five_zone_engine();
    assert!(engine.get_zone(4).is_some());
    assert_eq!(engine.get_zone(4).unwrap().id, 4);
    assert!(engine.get_zone(5).is_none());
}

#[test]
fn biocore_effect_forwards_magnitude() {
    let mut engine = five_zone_engine();
    let effect = BioCoreEffect {
        zone_id: 2,
        magnitude: 650_000,
        effects: vec![String::from("uplift")],
    };
    assert_eq!(engine.apply_biocore_effect(&effect), Ok(()));
    assert_eq!(engine.zones[2].activity, 850_000);
    assert_eq!(engine.zones[2].state, ZoneState::Emergent);

    let bad = BioCoreEffect { zone_id: 9, magnitude: 1, effects: Vec::new() };
    assert_eq!(engine.apply_biocore_effect(&bad), Err(EngineError::OutOfRange));
}

#[test]
fn adjustment_and_influence_agree() {
    let mut a = Zone::with_activity(0, 500_000, 500_000);
    let mut b = Zone::with_activity(0, 500_000, 500_000);
    a.apply_adjustment(-137_000);
    b.apply_influence(-137_000);
    assert_eq!(a.activity, b.activity);
    assert_eq!(a.activity, 363_000);
    assert_eq!(a.state, ZoneState::Calm);
}
