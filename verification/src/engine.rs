//! The homeostatic engine: a fixed collection of zones regulated by a
//! discrete-time proportional controller on an exponentially smoothed
//! activity signal.
//!
//! Each tick first blends the zone's activity into its smoothing
//! accumulator (weights 0.97 / 0.03), then applies a correction of
//! `eta * (target - smoothed)`, clamped back onto the unit scale.  External
//! influence bypasses the smoothing and perturbs the activity directly.
//! All arithmetic is exact on the micro-unit scale of [`crate::zone::SCALE`].

use vstd::arithmetic::div_mod::{
    lemma_div_is_ordered, lemma_div_multiples_vanish, lemma_div_nonincreasing,
    lemma_div_pos_is_pos,
};
use vstd::arithmetic::mul::{
    lemma_mul_by_zero_is_zero, lemma_mul_inequality, lemma_mul_is_commutative,
    lemma_mul_nonnegative,
};
use vstd::prelude::*;

use crate::ambient::now_timestamp;
use crate::zone::{classify, clamp_unit, Zone, ZoneState, DEFAULT_TARGET, SCALE, SEED_MIN, SEED_SPAN};

verus! {

/// Weight, out of [`EMA_DENOM`], kept from the previous smoothed value.
pub const EMA_KEEP: u64 = 97;

/// Weight, out of [`EMA_DENOM`], taken from the newest activity sample.
pub const EMA_BLEND: u64 = 3;

/// Denominator of the smoothing weights.
pub const EMA_DENOM: u64 = 100;

/// Default correction gain, 0.02 on the unit scale.
pub const DEFAULT_ETA: u64 = 20_000;

/// Default zone count.
pub const DEFAULT_ZONES: usize = 5;

/// Configuration fixed at construction: the global equilibrium target, the
/// correction gain `eta`, and the zone count.
#[derive(Clone, Copy, Debug, PartialEq, Eq, Structural)]
pub struct HomeostaticConfig {
    pub target_calmness: u64,
    pub learning_rate: u64,
    pub zones: usize,
}

impl HomeostaticConfig {
    /// Validity: the target lies on the unit scale and there is at least
    /// one zone (the aggregate metrics take a mean over the zones).
    pub open spec fn wf(self) -> bool {
        &&& self.target_calmness <= SCALE
        &&& self.zones >= 1
    }
}

impl Default for HomeostaticConfig {
    fn default() -> (config: Self)
        ensures
            config.wf(),
            config == (HomeostaticConfig {
                target_calmness: DEFAULT_TARGET,
                learning_rate: DEFAULT_ETA,
                zones: DEFAULT_ZONES,
            }),
    {
        HomeostaticConfig {
            target_calmness: DEFAULT_TARGET,
            learning_rate: DEFAULT_ETA,
            zones: DEFAULT_ZONES,
        }
    }
}

/// The one failure of the engine: an influence aimed at a zone index that
/// does not exist.
#[derive(Clone, Copy, Debug, PartialEq, Eq, Structural)]
pub enum EngineError {
    OutOfRange,
}

/// An exogenous perturbation aimed at one zone.
#[derive(Debug, Clone)]
pub struct BioCoreEffect {
    pub zone_id: usize,
    pub magnitude: i64,
    pub effects: Vec<String>,
}

/// The next smoothed value: `0.97 * smoothed + 0.03 * activity`, in exact
/// integer arithmetic (the division truncates).
pub open spec fn ema_next(smoothed: u64, activity: u64) -> int {
    (EMA_KEEP * smoothed + EMA_BLEND * activity) / (EMA_DENOM as int)
}

/// The corrected activity, given the gain, the target and the already
/// updated smoothed value: `activity + eta * (target - smoothed)`, clamped
/// onto the unit scale.  Written in two branches so that every division
/// has a non-negative numerator.
pub open spec fn corrected(activity: u64, eta: u64, target: u64, smoothed: int) -> int {
    if smoothed <= target {
        clamp_unit(activity + eta * (target - smoothed) / (SCALE as int))
    } else {
        clamp_unit(activity - eta * (smoothed - target) / (SCALE as int))
    }
}

/// One full controller step for one zone's activity: smooth, then correct.
pub open spec fn tick_activity(activity: u64, smoothed: u64, eta: u64, target: u64) -> int {
    corrected(activity, eta, target, ema_next(smoothed, activity))
}

/// Sum of the activities of a sequence of zones.
pub open spec fn sum_activity(zones: Seq<Zone>) -> int
    decreases zones.len(),
{
    if zones.len() == 0 {
        0
    } else {
        sum_activity(zones.drop_last()) + zones.last().activity
    }
}

/// How many zones of a sequence are classified calm.
pub open spec fn calm_count(zones: Seq<Zone>) -> int
    decreases zones.len(),
{
    if zones.len() == 0 {
        0
    } else {
        calm_count(zones.drop_last()) + if zones.last().state == ZoneState::Calm {
            1int
        } else {
            0int
        }
    }
}

/// Mean activity of a non-empty sequence of zones (truncated).
pub open spec fn average_activity_of(zones: Seq<Zone>) -> int {
    sum_activity(zones) / (zones.len() as int)
}

/// Absolute deviation of the mean activity from the target; zero means
/// perfectly balanced.
pub open spec fn balance_of(zones: Seq<Zone>, target: u64) -> int {
    let avg = average_activity_of(zones);
    if avg >= target {
        avg - target
    } else {
        target - avg
    }
}

/// System health: the fraction of zones currently classified calm, on the
/// unit scale (truncated).  This is the definition this crate commits to;
/// an inverse-balance measure would also have been defensible.
pub open spec fn health_of(zones: Seq<Zone>) -> int {
    calm_count(zones) * SCALE / (zones.len() as int)
}

/// Aggregate metrics derived from the zone collection at read time.
#[derive(Clone, Copy, Debug, PartialEq, Eq, Structural)]
pub struct SystemMetrics {
    pub average_activity: u64,
    pub total_zones: usize,
    pub homeostatic_balance: u64,
    pub system_health: u64,
    pub timestamp: i64,
}

/// An immutable copy of all zone data plus the metrics derived from that
/// same copy, taken at a single instant.
#[derive(Debug, Clone)]
pub struct SystemState {
    pub zones: Vec<Zone>,
    pub metrics: SystemMetrics,
}

/// The regulator: the single owner of the zones and of their smoothing
/// accumulators (index-aligned), plus the fixed configuration.
pub struct HomeostaticEngine {
    pub zones: Vec<Zone>,
    pub ema: Vec<u64>,
    pub config: HomeostaticConfig,
}

impl HomeostaticEngine {
    /// Validity: the configuration is valid, both vectors have exactly the
    /// configured length, every zone is well-formed and every smoothing
    /// accumulator lies on the unit scale.
    pub open spec fn wf(self) -> bool {
        &&& self.config.wf()
        &&& self.zones@.len() == self.config.zones
        &&& self.ema@.len() == self.zones@.len()
        &&& forall|i: int| 0 <= i < self.zones@.len() ==> (#[trigger] self.zones@[i]).wf()
        &&& forall|i: int| 0 <= i < self.ema@.len() ==> #[trigger] self.ema@[i] <= SCALE
    }

    /// An engine over the given seed activities.  Zone `i` starts at
    /// `seeds[i]` with its smoothing accumulator seeded to the same value,
    /// so the first tick sees a fully settled estimate.
    pub fn with_activities(config: HomeostaticConfig, seeds: &Vec<u64>) -> (engine: Self)
        requires
            config.wf(),
            seeds@.len() == config.zones,
            forall|i: int| 0 <= i < seeds@.len() ==> #[trigger] seeds@[i] <= SCALE,
        ensures
            engine.wf(),
            engine.config == config,
            engine.zones@.len() == seeds@.len(),
            forall|i: int| 0 <= i < seeds@.len() ==> {
                let zone = #[trigger] engine.zones@[i];
                &&& zone.id == i
                &&& zone.activity == seeds@[i]
                &&& zone.target == config.target_calmness
                &&& zone.state == classify(seeds@[i])
            },
            forall|i: int| 0 <= i < seeds@.len() ==> #[trigger] engine.ema@[i] == seeds@[i],
    {
        let count: usize = seeds.len();
        let mut zones: Vec<Zone> = Vec::new();
        let mut ema: Vec<u64> = Vec::new();
        let mut i: usize = 0;
        while i < count
            invariant
                i <= count,
                count == seeds@.len(),
                config.wf(),
                zones@.len() == i,
                ema@.len() == i,
                forall|j: int| 0 <= j < seeds@.len() ==> #[trigger] seeds@[j] <= SCALE,
                forall|j: int| 0 <= j < i ==> {
                    let zone = #[trigger] zones@[j];
                    &&& zone.wf()
                    &&& zone.id == j
                    &&& zone.activity == seeds@[j]
                    &&& zone.target == config.target_calmness
                    &&& zone.state == classify(seeds@[j])
                },
                forall|j: int| 0 <= j < i ==> #[trigger] ema@[j] == seeds@[j],
            decreases count - i,
        {
            let seed: u64 = seeds[i];
            zones.push(Zone::with_activity(i, seed, config.target_calmness));
            ema.push(seed);
            i = i + 1;
        }
        HomeostaticEngine { zones, ema, config }
    }

    /// An engine whose zones are seeded randomly from the band
    /// `[0.2, 0.8]`, as fresh zones are.
    pub fn new(config: HomeostaticConfig) -> (engine: Self)
        requires
            config.wf(),
        ensures
            engine.wf(),
            engine.config == config,
            forall|i: int| 0 <= i < engine.zones@.len() ==> {
                let zone = #[trigger] engine.zones@[i];
                &&& zone.id == i
                &&& SEED_MIN <= zone.activity <= SEED_MIN + SEED_SPAN
                &&& zone.target == config.target_calmness
            },
            forall|i: int| 0 <= i < engine.zones@.len()
                ==> #[trigger] engine.ema@[i] == engine.zones@[i].activity,
    {
        let count: usize = config.zones;
        let mut seeds: Vec<u64> = Vec::new();
        let mut i: usize = 0;
        while i < count
            invariant
                i <= count,
                seeds@.len() == i,
                forall|j: int| 0 <= j < i
                    ==> SEED_MIN <= #[trigger] seeds@[j] <= SEED_MIN + SEED_SPAN,
            decreases count - i,
        {
            let draw: u64 = crate::ambient::random_u64();
            seeds.push(SEED_MIN + draw % (SEED_SPAN + 1));
            i = i + 1;
        }
        HomeostaticEngine::with_activities(config, &seeds)
    }

    /// One controller step for a single zone: returns the updated zone and
    /// the updated smoothing accumulator.
    fn regulate(zone: Zone, smoothed: u64, eta: u64, target: u64, ts: i64) -> (res: (Zone, u64))
        requires
            zone.wf(),
            smoothed <= SCALE,
        ensures
            res.1 == ema_next(smoothed, zone.activity),
            res.1 <= SCALE,
            res.0.activity == tick_activity(zone.activity, smoothed, eta, target),
            res.0.state == classify(res.0.activity),
            res.0.id == zone.id,
            res.0.target == zone.target,
            res.0.last_update == ts,
            res.0.wf(),
    {
        let s_new: u64 = (EMA_KEEP * smoothed + EMA_BLEND * zone.activity) / EMA_DENOM;
        proof {
            lemma_div_is_ordered(
                EMA_KEEP * smoothed + EMA_BLEND * zone.activity,
                (EMA_DENOM * SCALE) as int,
                EMA_DENOM as int,
            );
            lemma_div_multiples_vanish(SCALE as int, EMA_DENOM as int);
        }
        let activity: u64;
        if s_new <= target {
            let gap: u64 = target - s_new;
            proof {
                assert((eta as int) * (gap as int)
                    <= (0xffff_ffff_ffff_ffffu64 as int)
                        * (0xffff_ffff_ffff_ffffu64 as int)) by (nonlinear_arith)
                    requires
                        eta <= 0xffff_ffff_ffff_ffffu64,
                        gap <= 0xffff_ffff_ffff_ffffu64,
                ;
                lemma_div_nonincreasing((eta as int) * (gap as int), SCALE as int);
            }
            let raise_wide: u128 = (eta as u128) * (gap as u128) / (SCALE as u128);
            let lifted: u128 = (zone.activity as u128) + raise_wide;
            activity = if lifted > SCALE as u128 {
                SCALE
            } else {
                lifted as u64
            };
        } else {
            let gap: u64 = s_new - target;
            proof {
                assert((eta as int) * (gap as int)
                    <= (0xffff_ffff_ffff_ffffu64 as int) * (SCALE as int)) by (nonlinear_arith)
                    requires
                        eta <= 0xffff_ffff_ffff_ffffu64,
                        gap <= SCALE,
                ;
            }
            let fall_wide: u128 = (eta as u128) * (gap as u128) / (SCALE as u128);
            let sunk: u128 = zone.activity as u128;
            activity = if sunk > fall_wide {
                (sunk - fall_wide) as u64
            } else {
                0
            };
        }
        let state = ZoneState::from_activity(activity);
        (
            Zone { id: zone.id, activity, target: zone.target, state, last_update: ts },
            s_new,
        )
    }

    /// One tick of the controller: for every zone, blend the activity into
    /// the smoothing accumulator, then correct the activity toward the
    /// target by `eta` times the smoothed error, clamped onto the unit
    /// scale.  Zones are independent; all share one update instant.
    pub fn update(&mut self)
        requires
            old(self).wf(),
        ensures
            final(self).wf(),
            final(self).config == old(self).config,
            final(self).zones@.len() == old(self).zones@.len(),
            forall|i: int| 0 <= i < old(self).zones@.len()
                ==> #[trigger] final(self).ema@[i]
                    == ema_next(old(self).ema@[i], old(self).zones@[i].activity),
            forall|i: int| 0 <= i < old(self).zones@.len() ==> {
                let before = old(self).zones@[i];
                let after = #[trigger] final(self).zones@[i];
                &&& after.activity == tick_activity(
                    before.activity,
                    old(self).ema@[i],
                    old(self).config.learning_rate,
                    old(self).config.target_calmness,
                )
                &&& after.state == classify(after.activity)
                &&& after.id == before.id
                &&& after.target == before.target
            },
            forall|i: int, j: int|
                0 <= i < old(self).zones@.len() && 0 <= j < old(self).zones@.len()
                    ==> #[trigger] final(self).zones@[i].last_update
                        == #[trigger] final(self).zones@[j].last_update,
    {
        let ts: i64 = now_timestamp();
        let eta: u64 = self.config.learning_rate;
        let target: u64 = self.config.target_calmness;
        let count: usize = self.zones.len();
        let mut i: usize = 0;
        while i < count
            invariant
                i <= count,
                count == self.zones@.len(),
                self.zones@.len() == old(self).zones@.len(),
                self.ema@.len() == self.zones@.len(),
                self.config == old(self).config,
                eta == self.config.learning_rate,
                target == self.config.target_calmness,
                old(self).wf(),
                forall|j: int| i <= j < count
                    ==> #[trigger] self.zones@[j] == old(self).zones@[j],
                forall|j: int| i <= j < count ==> #[trigger] self.ema@[j] == old(self).ema@[j],
                forall|j: int| 0 <= j < i
                    ==> #[trigger] self.ema@[j]
                        == ema_next(old(self).ema@[j], old(self).zones@[j].activity)
                        && self.ema@[j] <= SCALE,
                forall|j: int| 0 <= j < i ==> {
                    let before = old(self).zones@[j];
                    let after = #[trigger] self.zones@[j];
                    &&& after.activity == tick_activity(before.activity, old(self).ema@[j], eta, target)
                    &&& after.state == classify(after.activity)
                    &&& after.id == before.id
                    &&& after.target == before.target
                    &&& after.last_update == ts
                    &&& after.wf()
                },
            decreases count - i,
        {
            let zone: Zone = self.zones[i];
            let smoothed: u64 = self.ema[i];
            let (updated, s_new) = HomeostaticEngine::regulate(zone, smoothed, eta, target, ts);
            self.zones.set(i, updated);
            self.ema.set(i, s_new);
            i = i + 1;
        }
    }

    /// Applies an exogenous influence to one zone: the delta is added to
    /// that zone's activity, clamped onto the unit scale, and the zone is
    /// reclassified.  The smoothing accumulators are untouched.  Fails
    /// with [`EngineError::OutOfRange`], mutating nothing, exactly when
    /// the index does not name a zone.
    pub fn apply_influence(&mut self, zone_id: usize, influence: i64) -> (result: Result<
        (),
        EngineError,
    >)
        requires
            old(self).wf(),
        ensures
            final(self).wf(),
            final(self).config == old(self).config,
            final(self).ema@ == old(self).ema@,
            final(self).zones@.len() == old(self).zones@.len(),
            result is Ok <==> zone_id < old(self).zones@.len(),
            zone_id < old(self).zones@.len() ==> {
                let before = old(self).zones@[zone_id as int];
                let after = final(self).zones@[zone_id as int];
                &&& after.activity == clamp_unit(before.activity + influence)
                &&& after.state == classify(after.activity)
                &&& after.id == before.id
                &&& after.target == before.target
                &&& forall|j: int|
                    0 <= j < old(self).zones@.len() && j != zone_id
                        ==> #[trigger] final(self).zones@[j] == old(self).zones@[j]
            },
            zone_id >= old(self).zones@.len()
                ==> *final(self) == *old(self) && result == Result::<(), EngineError>::Err(
                    EngineError::OutOfRange,
                ),
    {
        if zone_id < self.zones.len() {
            let mut zone: Zone = self.zones[zone_id];
            zone.apply_influence(influence);
            self.zones.set(zone_id, zone);
            Ok(())
        } else {
            Err(EngineError::OutOfRange)
        }
    }

    /// Forwards a BioCore effect as a plain influence on its target zone.
    pub fn apply_biocore_effect(&mut self, effect: &BioCoreEffect) -> (result: Result<
        (),
        EngineError,
    >)
        requires
            old(self).wf(),
        ensures
            final(self).wf(),
            final(self).config == old(self).config,
            final(self).ema@ == old(self).ema@,
            final(self).zones@.len() == old(self).zones@.len(),
            result is Ok <==> effect.zone_id < old(self).zones@.len(),
            effect.zone_id < old(self).zones@.len() ==> {
                let before = old(self).zones@[effect.zone_id as int];
                let after = final(self).zones@[effect.zone_id as int];
                &&& after.activity == clamp_unit(before.activity + effect.magnitude)
                &&& after.state == classify(after.activity)
                &&& after.id == before.id
                &&& after.target == before.target
            },
            effect.zone_id >= old(self).zones@.len() ==> *final(self) == *old(self),
    {
        self.apply_influence(effect.zone_id, effect.magnitude)
    }

    /// Read access to the whole zone collection.
    pub fn get_zones(&self) -> (zones: &Vec<Zone>)
        ensures
            zones@ == self.zones@,
    {
        &self.zones
    }

    /// Read access to one zone; `None` exactly when the index names no
    /// zone.
    pub fn get_zone(&self, zone_id: usize) -> (zone: Option<&Zone>)
        ensures
            zone is Some <==> zone_id < self.zones@.len(),
            zone is Some ==> *zone->0 == self.zones@[zone_id as int],
    {
        if zone_id < self.zones.len() {
            Some(&self.zones[zone_id])
        } else {
            None
        }
    }

    /// The aggregate metrics, computed from the current zones at call
    /// time: mean activity, deviation of that mean from the target, and
    /// the calm fraction, all exact on the unit scale.
    pub fn get_system_metrics(&self) -> (metrics: SystemMetrics)
        requires
            self.wf(),
        ensures
            metrics.total_zones == self.zones@.len(),
            metrics.average_activity == average_activity_of(self.zones@),
            metrics.homeostatic_balance == balance_of(self.zones@, self.config.target_calmness),
            metrics.system_health == health_of(self.zones@),
            metrics.average_activity <= SCALE,
            metrics.system_health <= SCALE,
    {
        let count: usize = self.zones.len();
        let mut sum: u128 = 0;
        let mut calm: usize = 0;
        let mut i: usize = 0;
        while i < count
            invariant
                i <= count,
                count == self.zones@.len(),
                self.wf(),
                sum == sum_activity(self.zones@.take(i as int)),
                calm == calm_count(self.zones@.take(i as int)),
                sum <= (i as int) * (SCALE as int),
                calm <= i,
            decreases count - i,
        {
            let zone: Zone = self.zones[i];
            proof {
                assert(self.zones@.take(i + 1).drop_last() =~= self.zones@.take(i as int));
                assert(self.zones@.take(i + 1).last() == self.zones@[i as int]);
            }
            sum = sum + zone.activity as u128;
            if matches!(zone.state, ZoneState::Calm) {
                calm = calm + 1;
            }
            i = i + 1;
        }
        proof {
            assert(self.zones@.take(count as int) =~= self.zones@);
        }
        let average: u64 = {
            proof {
                lemma_div_is_ordered(
                    sum as int,
                    (count as int) * (SCALE as int),
                    count as int,
                );
                lemma_div_multiples_vanish(SCALE as int, count as int);
            }
            (sum / (count as u128)) as u64
        };
        let target: u64 = self.config.target_calmness;
        let balance: u64 = if average >= target {
            average - target
        } else {
            target - average
        };
        let health: u64 = {
            proof {
                lemma_mul_inequality(calm as int, count as int, SCALE as int);
                lemma_mul_is_commutative(count as int, SCALE as int);
                lemma_div_is_ordered(
                    (calm as int) * (SCALE as int),
                    (count as int) * (SCALE as int),
                    count as int,
                );
                lemma_div_multiples_vanish(SCALE as int, count as int);
            }
            ((calm as u128) * (SCALE as u128) / (count as u128)) as u64
        };
        SystemMetrics {
            average_activity: average,
            total_zones: count,
            homeostatic_balance: balance,
            system_health: health,
            timestamp: now_timestamp(),
        }
    }

    /// An immutable snapshot: a copy of every zone plus the metrics
    /// derived from exactly that copy.  Nothing in the result aliases the
    /// engine's own storage.
    pub fn get_state(&self) -> (state: SystemState)
        requires
            self.wf(),
        ensures
            state.zones@ == self.zones@,
            state.metrics.total_zones == self.zones@.len(),
            state.metrics.average_activity == average_activity_of(self.zones@),
            state.metrics.homeostatic_balance == balance_of(
                self.zones@,
                self.config.target_calmness,
            ),
            state.metrics.system_health == health_of(self.zones@),
    {
        let count: usize = self.zones.len();
        let mut zones: Vec<Zone> = Vec::new();
        let mut i: usize = 0;
        while i < count
            invariant
                i <= count,
                count == self.zones@.len(),
                zones@ =~= self.zones@.take(i as int),
            decreases count - i,
        {
            zones.push(self.zones[i]);
            i = i + 1;
        }
        proof {
            assert(self.zones@.take(count as int) =~= self.zones@);
        }
        let metrics = self.get_system_metrics();
        SystemState { zones, metrics }
    }
}

/// Law: when both the smoothed estimate and the activity sit at or above
/// the target, one tick never raises the activity — the controller only
/// pushes down from above.
pub proof fn lemma_tick_descends(activity: u64, smoothed: u64, eta: u64, target: u64)
    requires
        target <= smoothed <= SCALE,
        target <= activity <= SCALE,
    ensures
        tick_activity(activity, smoothed, eta, target) <= activity,
{
    let s1 = ema_next(smoothed, activity);
    assert(EMA_KEEP * smoothed + EMA_BLEND * activity >= EMA_DENOM * target);
    lemma_div_is_ordered(
        (EMA_DENOM * target) as int,
        EMA_KEEP * smoothed + EMA_BLEND * activity,
        EMA_DENOM as int,
    );
    lemma_div_multiples_vanish(target as int, EMA_DENOM as int);
    assert(target <= s1);
    if s1 <= target {
        assert(target - s1 == 0);
        lemma_mul_by_zero_is_zero(eta as int);
        assert(eta * (target - s1) == 0);
    } else {
        lemma_mul_nonnegative(eta as int, s1 - target);
        lemma_div_pos_is_pos(eta * (s1 - target), SCALE as int);
    }
}

/// Law: when both the smoothed estimate and the activity sit at or below
/// the target, one tick never lowers the activity — the controller only
/// lifts from below.
pub proof fn lemma_tick_ascends(activity: u64, smoothed: u64, eta: u64, target: u64)
    requires
        smoothed <= target <= SCALE,
        activity <= target,
    ensures
        tick_activity(activity, smoothed, eta, target) >= activity,
{
    let s1 = ema_next(smoothed, activity);
    assert(EMA_KEEP * smoothed + EMA_BLEND * activity <= EMA_DENOM * target);
    lemma_div_is_ordered(
        EMA_KEEP * smoothed + EMA_BLEND * activity,
        (EMA_DENOM * target) as int,
        EMA_DENOM as int,
    );
    lemma_div_multiples_vanish(target as int, EMA_DENOM as int);
    assert(s1 <= target);
    lemma_mul_nonnegative(eta as int, target - s1);
    lemma_div_pos_is_pos(eta * (target - s1), SCALE as int);
}

/// Law: from a state above the target whose smoothed estimate does not
/// exceed the activity (freshly seeded engines start with the two equal),
/// and with a gain of at most 1, one tick moves the activity toward the
/// target monotonically and never crosses it.
pub proof fn lemma_tick_converges_from_above(activity: u64, smoothed: u64, eta: u64, target: u64)
    requires
        target <= smoothed <= activity <= SCALE,
        eta <= SCALE,
    ensures
        target <= tick_activity(activity, smoothed, eta, target) <= activity,
{
    let s1 = ema_next(smoothed, activity);
    lemma_tick_descends(activity, smoothed, eta, target);
    assert(EMA_KEEP * smoothed + EMA_BLEND * activity >= EMA_DENOM * target);
    lemma_div_is_ordered(
        (EMA_DENOM * target) as int,
        EMA_KEEP * smoothed + EMA_BLEND * activity,
        EMA_DENOM as int,
    );
    lemma_div_multiples_vanish(target as int, EMA_DENOM as int);
    assert(EMA_KEEP * smoothed + EMA_BLEND * activity <= EMA_DENOM * activity);
    lemma_div_is_ordered(
        EMA_KEEP * smoothed + EMA_BLEND * activity,
        (EMA_DENOM * activity) as int,
        EMA_DENOM as int,
    );
    lemma_div_multiples_vanish(activity as int, EMA_DENOM as int);
    assert(target <= s1 <= activity);
    if s1 > target {
        lemma_mul_inequality(eta as int, SCALE as int, s1 - target);
        lemma_div_is_ordered(
            eta * (s1 - target),
            (SCALE as int) * (s1 - target),
            SCALE as int,
        );
        lemma_div_multiples_vanish(s1 - target, SCALE as int);
        assert(eta * (s1 - target) / (SCALE as int) <= s1 - target);
    } else {
        assert(target - s1 == 0);
        lemma_mul_by_zero_is_zero(eta as int);
        assert(eta * (target - s1) == 0);
    }
}

/// Law: the mirror image of [`lemma_tick_converges_from_above`] — from a
/// state below the target whose smoothed estimate is at least the
/// activity, with a gain of at most 1, one tick lifts the activity toward
/// the target and never crosses it.
pub proof fn lemma_tick_converges_from_below(activity: u64, smoothed: u64, eta: u64, target: u64)
    requires
        activity <= smoothed <= target <= SCALE,
        eta <= SCALE,
    ensures
        activity <= tick_activity(activity, smoothed, eta, target) <= target,
{
    let s1 = ema_next(smoothed, activity);
    lemma_tick_ascends(activity, smoothed, eta, target);
    assert(EMA_KEEP * smoothed + EMA_BLEND * activity <= EMA_DENOM * target);
    lemma_div_is_ordered(
        EMA_KEEP * smoothed + EMA_BLEND * activity,
        (EMA_DENOM * target) as int,
        EMA_DENOM as int,
    );
    lemma_div_multiples_vanish(target as int, EMA_DENOM as int);
    assert(EMA_KEEP * smoothed + EMA_BLEND * activity >= EMA_DENOM * activity);
    lemma_div_is_ordered(
        (EMA_DENOM * activity) as int,
        EMA_KEEP * smoothed + EMA_BLEND * activity,
        EMA_DENOM as int,
    );
    lemma_div_multiples_vanish(activity as int, EMA_DENOM as int);
    assert(activity <= s1 <= target);
    lemma_mul_inequality(eta as int, SCALE as int, target - s1);
    lemma_div_is_ordered(
        eta * (target - s1),
        (SCALE as int) * (target - s1),
        SCALE as int,
    );
    lemma_div_multiples_vanish(target - s1, SCALE as int);
    assert(eta * (target - s1) / (SCALE as int) <= target - s1);
}

} // verus!
